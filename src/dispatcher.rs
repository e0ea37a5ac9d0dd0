//! The dispatcher: the single owner of the queue of waiting clients and of
//! the queue of idle workers, which pairs them in arrival order.
use vstd::prelude::*;
use std::collections::VecDeque;
use crate::sentinel::MasterChangeNotification;
use crate::types::RedisError;

verus! {

/// A worker asks for a client, handing back the one it served, if any.
pub struct GetAndReleaseClient<C, W> {
    /// The worker's name, for logs.
    pub worker_id: String,
    /// The client served in the last round, when that round succeeded.
    pub client_to_release: Option<C>,
    /// Where to send the worker its next client.
    pub tx_worker_message: W,
}

/// An event for the dispatcher: exactly one of a new connection, a primary
/// change, or a worker asking for work.
pub enum MainLoopEvent<A, C, W> {
    NewClient(A),
    MasterChange(MasterChangeNotification),
    Worker(GetAndReleaseClient<C, W>),
}

impl<A, C, W> MainLoopEvent<A, C, W> {
    /// A client connected.
    pub fn new_client(accepted: A) -> (r: Self)
        ensures
            r == MainLoopEvent::<A, C, W>::NewClient(accepted),
    {
        MainLoopEvent::NewClient(accepted)
    }

    /// The primary changed.
    pub fn master_change(new_master: MasterChangeNotification) -> (r: Self)
        ensures
            r == MainLoopEvent::<A, C, W>::MasterChange(new_master),
    {
        MainLoopEvent::MasterChange(new_master)
    }

    /// A worker asks for its first client.
    pub fn worker_get_client(name: String, tx_worker_message: W) -> (r: Self)
        ensures
            r == MainLoopEvent::<A, C, W>::Worker(
                GetAndReleaseClient { worker_id: name, client_to_release: None, tx_worker_message },
            ),
    {
        MainLoopEvent::Worker(
            GetAndReleaseClient { worker_id: name, client_to_release: None, tx_worker_message },
        )
    }

    /// The request a worker posts after a round with `client` ended with
    /// `round`: the client goes back when the round succeeded; after a
    /// failure the client is dropped, closing its connections, and the
    /// worker asks empty-handed.
    pub fn after_round(name: String, client: C, round: Result<(), RedisError>, tx_worker_message: W) -> (r: Self)
        ensures
            round is Ok ==> r == MainLoopEvent::<A, C, W>::Worker(
                GetAndReleaseClient {
                    worker_id: name,
                    client_to_release: Some(client),
                    tx_worker_message,
                },
            ),
            round is Err ==> r == MainLoopEvent::<A, C, W>::Worker(
                GetAndReleaseClient { worker_id: name, client_to_release: None, tx_worker_message },
            ),
    {
        match round {
            Ok(()) => Self::worker_send_and_get_client(name, client, tx_worker_message),
            Err(_) => Self::worker_get_client(name, tx_worker_message),
        }
    }

    /// A worker hands back its client and asks for the next one.
    pub fn worker_send_and_get_client(name: String, client: C, tx_worker_message: W) -> (r: Self)
        ensures
            r == MainLoopEvent::<A, C, W>::Worker(
                GetAndReleaseClient {
                    worker_id: name,
                    client_to_release: Some(client),
                    tx_worker_message,
                },
            ),
    {
        MainLoopEvent::Worker(
            GetAndReleaseClient {
                worker_id: name,
                client_to_release: Some(client),
                tx_worker_message,
            },
        )
    }
}

/// What a worker does with a message from the dispatcher.
pub enum WorkerTask<C> {
    /// Stop the worker.
    Stop,
    /// Serve this client for one round.
    Serve(C),
    /// Nothing to serve: ask again.
    Idle,
}

/// A message to a worker: a client to serve for one round, or the order to stop.
pub struct WorkerEvent<C> {
    /// The client to serve.
    pub client: Option<C>,
    /// Whether the worker must stop.
    pub shutdown: bool,
}

impl<C> WorkerEvent<C> {
    /// Hands `client` to a worker.
    pub fn send_client(client: C) -> (r: Self)
        ensures
            r == (WorkerEvent { client: Some(client), shutdown: false }),
    {
        WorkerEvent { client: Some(client), shutdown: false }
    }

    /// What the worker must do: stop when told to, else serve the client
    /// handed over, if any.
    pub fn task(self) -> (r: WorkerTask<C>)
        ensures
            self.shutdown ==> r is Stop,
            !self.shutdown ==> match self.client {
                Some(c) => r == WorkerTask::Serve(c),
                None => r is Idle,
            },
    {
        if self.shutdown {
            return WorkerTask::Stop;
        }
        match self.client {
            Some(c) => WorkerTask::Serve(c),
            None => WorkerTask::Idle,
        }
    }

    /// Tells a worker to stop.
    pub fn shutdown() -> (r: Self)
        ensures
            r == (WorkerEvent::<C> { client: None, shutdown: true }),
    {
        WorkerEvent { client: None, shutdown: true }
    }
}

/// What the dispatcher's owner must do after an event.
pub enum Action<A, C, W> {
    /// Nothing.
    Nothing,
    /// Open an upstream connection to the primary for this new connection,
    /// then hand the session to `manage_message_new_client`; on failure
    /// drop the connection.
    Connect(A),
    /// Send this event to this worker.
    Send(W, WorkerEvent<C>),
}

/// Model of the dispatcher.
pub struct DispatcherView<C, W> {
    pub clients: Seq<C>,
    pub workers: Seq<W>,
    pub primary: Seq<char>,
}

/// The dispatcher's state after a primary change to `new`.
pub open spec fn after_master_change<C, W>(d: DispatcherView<C, W>, new: Seq<char>) -> DispatcherView<
    C,
    W,
> {
    DispatcherView { primary: new, ..d }
}

/// Applying the same primary change twice leaves the primary as the first
/// application left it, and the queues untouched.
pub proof fn lemma_master_change_idempotent<C, W>(d: DispatcherView<C, W>, new: Seq<char>)
    ensures
        after_master_change(after_master_change(d, new), new) == after_master_change(d, new),
        after_master_change(d, new).clients == d.clients,
        after_master_change(d, new).workers == d.workers,
{
}

/// The dispatcher: clients waiting for a worker, workers waiting for a
/// client, and the primary that new sessions connect to.
pub struct Dispatcher<C, W> {
    clients: VecDeque<C>,
    workers: VecDeque<W>,
    primary_endpoint: String,
}

impl<C, W> View for Dispatcher<C, W> {
    type V = DispatcherView<C, W>;

    closed spec fn view(&self) -> DispatcherView<C, W> {
        DispatcherView {
            clients: self.clients@,
            workers: self.workers@,
            primary: self.primary_endpoint@,
        }
    }
}

impl<C, W> Dispatcher<C, W> {
    /// At most one of the two queues holds anything: a waiting client and
    /// an idle worker are never left apart.
    pub open spec fn wf(&self) -> bool {
        self@.clients.len() == 0 || self@.workers.len() == 0
    }

    /// A dispatcher with empty queues whose sessions go to `primary`.
    pub fn new(primary: String) -> (r: Self)
        ensures
            r@ == (DispatcherView::<C, W> {
                clients: Seq::empty(),
                workers: Seq::empty(),
                primary: primary@,
            }),
            r.wf(),
    {
        Dispatcher { clients: VecDeque::new(), workers: VecDeque::new(), primary_endpoint: primary }
    }

    /// The primary that new sessions connect to.
    pub fn primary_endpoint(&self) -> (r: &String)
        ensures
            r@ == self@.primary,
    {
        &self.primary_endpoint
    }

    /// Number of clients waiting.
    pub fn clients_len(&self) -> (r: usize)
        ensures
            r == self@.clients.len(),
    {
        self.clients.len()
    }

    /// Number of idle workers.
    pub fn workers_len(&self) -> (r: usize)
        ensures
            r == self@.workers.len(),
    {
        self.workers.len()
    }

    /// Handles one event. A new connection asks the owner to connect it
    /// upstream; a primary change is applied; a worker's request is served.
    pub fn manage_message<A>(&mut self, event: MainLoopEvent<A, C, W>) -> (r: Action<A, C, W>)
        requires
            old(self).wf(),
        ensures
            final(self).wf(),
            match event {
                MainLoopEvent::NewClient(a) => r == Action::<A, C, W>::Connect(a) && final(self)@
                    == old(self)@,
                MainLoopEvent::MasterChange(n) => r is Nothing && final(self)@ == after_master_change(
                    old(self)@,
                    n.new@,
                ),
                MainLoopEvent::Worker(m) => worker_served(old(self)@, m, r, final(self)@),
            },
    {
        match event {
            MainLoopEvent::NewClient(a) => Action::Connect(a),
            MainLoopEvent::MasterChange(n) => {
                self.manage_master_change(&n);
                Action::Nothing
            },
            MainLoopEvent::Worker(m) => {
                match self.manage_message_worker(m) {
                    Some((w, e)) => Action::Send(w, e),
                    None => Action::Nothing,
                }
            },
        }
    }

    /// Sets the primary that new sessions connect to. Sessions already
    /// open keep their upstream connection.
    pub fn manage_master_change(&mut self, notice: &MasterChangeNotification)
        requires
            old(self).wf(),
        ensures
            final(self).wf(),
            final(self)@ == after_master_change(old(self)@, notice.new@),
    {
        self.primary_endpoint = notice.new.clone();
    }

    /// Queues a session that was just connected upstream and gives it to
    /// an idle worker if one waits.
    pub fn manage_message_new_client(&mut self, session: C) -> (r: Option<(W, WorkerEvent<C>)>)
        requires
            old(self).wf(),
        ensures
            final(self).wf(),
            final(self)@.primary == old(self)@.primary,
            old(self)@.workers.len() > 0 ==> r == Some((
                old(self)@.workers[0],
                WorkerEvent { client: Some(session), shutdown: false },
            )) && final(self)@.workers == old(self)@.workers.drop_first() && final(self)@.clients
                == old(self)@.clients,
            old(self)@.workers.len() == 0 ==> r is None && final(self)@.clients == old(
                self,
            )@.clients.push(session) && final(self)@.workers == old(self)@.workers,
            final(self)@.clients.len() + (if r is Some {
                1int
            } else {
                0
            }) == old(self)@.clients.len() + 1,
            old(self)@.clients.push(session) == (match r {
                Some((_, e)) => match e.client {
                    Some(c) => seq![c],
                    None => Seq::empty(),
                },
                None => Seq::empty(),
            }) + final(self)@.clients,
    {
        self.clients.push_back(session);
        let mut sent = self.send_client_to_worker();
        sent.pop()
    }

    /// Pairs waiting clients with idle workers, head with head, while both
    /// queues hold some: the `k`-th client goes to the `k`-th worker.
    pub fn send_client_to_worker(&mut self) -> (r: Vec<(W, WorkerEvent<C>)>)
        ensures
            final(self).wf(),
            final(self)@.primary == old(self)@.primary,
            r@.len() == pairs_sent(old(self)@),
            forall|i: int|
                0 <= i < r@.len() ==> #[trigger] r@[i] == (
                    old(self)@.workers[i],
                    WorkerEvent { client: Some(old(self)@.clients[i]), shutdown: false },
                ),
            final(self)@.clients == old(self)@.clients.skip(pairs_sent(old(self)@) as int),
            final(self)@.workers == old(self)@.workers.skip(pairs_sent(old(self)@) as int),
    {
        let mut sent: Vec<(W, WorkerEvent<C>)> = Vec::new();
        let ghost start = self@;
        let ghost k = pairs_sent(start);
        while self.clients.len() > 0 && self.workers.len() > 0
            invariant
                sent@.len() <= k,
                k == pairs_sent(start),
                self@.primary == start.primary,
                self@.clients == start.clients.skip(sent@.len() as int),
                self@.workers == start.workers.skip(sent@.len() as int),
                forall|i: int|
                    0 <= i < sent@.len() ==> #[trigger] sent@[i] == (
                        start.workers[i],
                        WorkerEvent { client: Some(start.clients[i]), shutdown: false },
                    ),
            decreases self@.clients.len(),
        {
            let client = self.clients.pop_front().unwrap();
            let worker = self.workers.pop_front().unwrap();
            sent.push((worker, WorkerEvent::send_client(client)));
            assert(self@.clients =~= start.clients.skip(sent@.len() as int));
            assert(self@.workers =~= start.workers.skip(sent@.len() as int));
        }
        sent
    }

    /// A worker asks for a client: the client it hands back joins the
    /// queue's tail; then the head of the queue goes to this worker, or the
    /// worker waits when no client does.
    pub fn manage_message_worker(&mut self, worker_message: GetAndReleaseClient<C, W>) -> (r: Option<
        (W, WorkerEvent<C>),
    >)
        requires
            old(self).wf(),
        ensures
            final(self).wf(),
            worker_served(old(self)@, worker_message, match r {
                Some((w, e)) => Action::<(), C, W>::Send(w, e),
                None => Action::<(), C, W>::Nothing,
            }, final(self)@),
    {
        if let Some(client) = worker_message.client_to_release {
            self.clients.push_back(client);
        }
        if self.clients.len() == 0 {
            self.workers.push_back(worker_message.tx_worker_message);
            return None;
        }
        let client = self.clients.pop_front().unwrap();
        Some((worker_message.tx_worker_message, WorkerEvent::send_client(client)))
    }
}

/// How many pairs the dispatcher can make: as many as the shorter queue holds.
pub open spec fn pairs_sent<C, W>(d: DispatcherView<C, W>) -> nat {
    if d.clients.len() < d.workers.len() {
        d.clients.len()
    } else {
        d.workers.len()
    }
}

/// The session that an action sends to a worker, if any.
pub open spec fn sent_sessions<A, C, W>(r: Action<A, C, W>) -> Seq<C> {
    match r {
        Action::Send(_, e) => match e.client {
            Some(c) => seq![c],
            None => Seq::empty(),
        },
        _ => Seq::empty(),
    }
}

/// Serving a worker's request neither loses nor duplicates a session: the
/// sessions waiting before, with the one handed back, are the one sent
/// followed by those waiting after, in order.
pub proof fn lemma_sessions_conserved<A, C, W>(
    d: DispatcherView<C, W>,
    m: GetAndReleaseClient<C, W>,
    r: Action<A, C, W>,
    e: DispatcherView<C, W>,
)
    requires
        worker_served(d, m, r, e),
    ensures
        queued_with(d, m) == sent_sessions(r) + e.clients,
{
    let q = queued_with(d, m);
    if q.len() > 0 {
        assert(q =~= seq![q[0]] + q.drop_first());
    } else {
        assert(sent_sessions(r) + e.clients =~= e.clients);
    }
}

/// The clients waiting once a worker's request has handed its client back.
pub open spec fn queued_with<C, W>(d: DispatcherView<C, W>, m: GetAndReleaseClient<C, W>) -> Seq<C> {
    match m.client_to_release {
        Some(c) => d.clients.push(c),
        None => d.clients,
    }
}

/// Serving the worker request `m` took the dispatcher from `d` to `e` with
/// action `r`: the head of the waiting clients (the handed-back client
/// joining the tail first) goes to the worker, or the worker joins the
/// idle queue when no client waits. No client is lost or duplicated.
pub open spec fn worker_served<A, C, W>(
    d: DispatcherView<C, W>,
    m: GetAndReleaseClient<C, W>,
    r: Action<A, C, W>,
    e: DispatcherView<C, W>,
) -> bool {
    let q = queued_with(d, m);
    &&& e.primary == d.primary
    &&& q.len() == 0 ==> r is Nothing && e.clients == q && e.workers == d.workers.push(
        m.tx_worker_message,
    )
    &&& q.len() > 0 ==> r == Action::<A, C, W>::Send(
        m.tx_worker_message,
        WorkerEvent { client: Some(q[0]), shutdown: false },
    ) && e.clients == q.drop_first() && e.workers == d.workers
    &&& e.clients.len() + (if r is Send {
        1int
    } else {
        0
    }) == d.clients.len() + (if m.client_to_release is Some {
        1int
    } else {
        0
    })
}

} // verus!
