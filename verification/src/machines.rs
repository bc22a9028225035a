//! Fundamental machines.

use vstd::prelude::*;

use crate::handlers::RequestHandler;
use crate::sync::Funnel;
use crate::sync::Notifier;
use crate::sync::Receiver;
use crate::sync::TryRecvError;
use crate::sync::funnel_channel;

verus! {

/// What a lifecycle call tells the event-loop driver to do next.
///
/// The value is transient: the driver consumes it immediately and never
/// stores it.
#[derive(Debug, PartialEq, Eq)]
pub enum Response<S> {
    /// Stay in the current state, registered and idle, until the next
    /// wakeup signal.
    Continue,
    /// Construct a new machine from the seed, then keep driving the
    /// current machine as well.
    Spawn(S),
    /// The machine is finished; drop it together with its receiver.
    Terminate,
}

/// A lifecycle call that a request machine can never answer.
///
/// Delivering one of these is a driver or registration bug — a programming
/// error, fatal and non-recoverable — not a runtime condition.
#[derive(Clone, Copy, Debug, PartialEq, Eq)]
pub enum InvalidCall {
    /// Request machines are built directly by their owner at setup time,
    /// never through the spawn-by-seed path.
    Create,
    /// Request machines register only for wakeup signals, never for
    /// socket readiness.
    Ready,
    /// Request machines never arm a timer.
    Timeout,
}

impl InvalidCall {
    /// A clear diagnostic naming the misuse, for the driver to report
    /// when it aborts the machine's handling.
    pub fn message(&self) -> (r: &'static str)
        ensures
            *self == InvalidCall::Create ==> r@ == "request machines cannot be created"@,
            *self == InvalidCall::Ready ==> r@ == "request machines cannot become ready"@,
            *self == InvalidCall::Timeout ==> r@ == "request machines cannot time out"@,
    {
        match self {
            InvalidCall::Create => "request machines cannot be created",
            InvalidCall::Ready => "request machines cannot become ready",
            InvalidCall::Timeout => "request machines cannot time out",
        }
    }
}

/// Converts queued requests into spawn instructions: exactly once per
/// request, in the order taken off the queue, without ever blocking the
/// event loop.
///
/// The machine owns the consumer end of a funnel channel and a handler.
/// On every wakeup it drains the channel, feeds each request to the
/// handler, and turns each seed the handler returns into a
/// [`Response::Spawn`] for the driver.
pub struct RequestMachine<H: RequestHandler> {
    handler: H,
    rx: Receiver<H::Request>,
    hist: Ghost<Seq<H::Request>>,
    answers: Ghost<Seq<Option<H::Seed>>>,
}

impl<H: RequestHandler> RequestMachine<H> {
    /// Every request this machine has handed to its handler, oldest first.
    pub closed spec fn delivered(&self) -> Seq<H::Request> {
        self.hist@
    }

    /// What the handler returned for each delivered request, in the same
    /// order as [`RequestMachine::delivered`].
    pub closed spec fn answers(&self) -> Seq<Option<H::Seed>> {
        self.answers@
    }

    /// Every request this machine's receiver has taken off the channel.
    pub closed spec fn taken(&self) -> Seq<H::Request> {
        self.rx.taken()
    }

    /// Whether the machine has observed channel disconnection — its
    /// terminal state, after which it must not receive again.
    pub closed spec fn finished(&self) -> bool {
        self.rx.is_disconnected()
    }

    /// The machine's invariant: everything taken off the channel has been
    /// handed to the handler — exactly once each, in order — and every
    /// delivery has its recorded answer.
    pub open spec fn wf(&self) -> bool {
        &&& self.delivered() == self.taken()
        &&& self.answers().len() == self.delivered().len()
    }

    /// How one drain invocation relates the machine's state after the call
    /// (`post`) to the state before it (`pre`) and to the instruction `r`
    /// it returned.
    ///
    /// Delivery only grows, and it grows in order: what was delivered
    /// before the call is an unchanged prefix of what has been delivered
    /// after it, each answer recorded beside its request. Of the newly
    /// delivered requests, every one but the last was answered `None` —
    /// a seed ends the drain at once. [`Response::Spawn`] carries exactly
    /// the seed the handler returned for the last delivered request;
    /// [`Response::Terminate`] comes back precisely when disconnection was
    /// observed, [`Response::Continue`] and [`Response::Spawn`] precisely
    /// when it was not. And a drain that took nothing off the channel
    /// delivered nothing: no request is ever conjured or repeated.
    pub open spec fn drained(pre: Self, post: Self, r: Response<H::Seed>) -> bool {
        &&& post.wf()
        &&& post.delivered().len() >= pre.delivered().len()
        &&& post.delivered().take(pre.delivered().len() as int) == pre.delivered()
        &&& post.answers().take(pre.answers().len() as int) == pre.answers()
        &&& forall|i: int|
            pre.answers().len() <= i < post.answers().len() - 1
                ==> (#[trigger] post.answers()[i]) is None
        &&& match r {
            Response::Continue => !post.finished()
                && (post.answers().len() > pre.answers().len()
                    ==> post.answers().last() is None),
            Response::Spawn(seed) => !post.finished()
                && post.answers().len() > pre.answers().len()
                && post.answers().last() == Some(seed),
            Response::Terminate => post.finished()
                && (post.answers().len() > pre.answers().len()
                    ==> post.answers().last() is None),
        }
        &&& (post.taken() == pre.taken() ==> post.delivered() == pre.delivered())
    }

    /// Build a request machine directly, together with the producer handle
    /// of its channel.
    ///
    /// This is the only way a request machine comes to exist: the owner
    /// calls it at setup time, registers the machine with the driver for
    /// wakeup-only notifications, and hands the funnel to the producers.
    pub fn new(handler: H, notifier: Notifier) -> (r: (Self, Funnel<H::Request>))
        ensures
            r.0.wf(),
            r.0.delivered() == Seq::<H::Request>::empty(),
            !r.0.finished(),
    {
        let (tx, rx) = funnel_channel(notifier);
        (
            RequestMachine {
                handler,
                rx,
                hist: Ghost(Seq::empty()),
                answers: Ghost(Seq::empty()),
            },
            tx,
        )
    }

    /// The spawn-by-seed construction path, which this machine type does
    /// not take part in: calling it is always rejected as fatal.
    pub fn create(_seed: H::Seed) -> (r: Result<Self, InvalidCall>)
        ensures
            r matches Err(InvalidCall::Create),
    {
        Err(InvalidCall::Create)
    }

    /// Socket readiness, which this machine never registers for: always
    /// rejected as fatal. The machine is consumed — its handling aborts.
    pub fn ready(self) -> (r: InvalidCall)
        ensures
            r == InvalidCall::Ready,
    {
        InvalidCall::Ready
    }

    /// A timer expiry, which this machine never arms: always rejected as
    /// fatal. The machine is consumed — its handling aborts.
    pub fn timeout(self) -> (r: InvalidCall)
        ensures
            r == InvalidCall::Timeout,
    {
        InvalidCall::Timeout
    }

    /// Drain the channel; the driver calls this right after construction
    /// completes and again after acting on every spawn instruction.
    ///
    /// Non-blocking receives are attempted until one of three things
    /// happens. A request whose handler call yields a seed returns
    /// [`Response::Spawn`] at once, so the driver can act on it; the
    /// driver must then re-invoke this function, which picks the drain up
    /// where it left off — a coalesced wakeup signal alone is not enough
    /// to keep queued requests from starving. An empty channel returns
    /// [`Response::Continue`]: the machine stays registered and idle until
    /// the next signal. A disconnected channel — every producer handle
    /// dropped — returns [`Response::Terminate`], and no further drain
    /// must follow.
    pub fn spawned(&mut self) -> (r: Response<H::Seed>)
        requires
            old(self).wf(),
            !old(self).finished(),
        ensures
            Self::drained(*old(self), *final(self), r),
    {
        let ghost before: Seq<H::Request> = self.hist@;
        let ghost before_answers: Seq<Option<H::Seed>> = self.answers@;
        let mut fuel: usize = usize::MAX;
        #[verifier::loop_isolation(false)]
        loop
            invariant
                self.wf(),
                !self.finished(),
                self.hist@.len() >= before.len(),
                self.hist@.take(before.len() as int) == before,
                self.answers@.take(before_answers.len() as int) == before_answers,
                forall|i: int|
                    before_answers.len() <= i < self.answers@.len()
                        ==> (#[trigger] self.answers@[i]) is None,
            decreases fuel,
        {
            if fuel == 0 {
                // The drain budget is practically unreachable; if it ever
                // ran out the pending wakeup signal would bring us back.
                return Response::Continue;
            }
            fuel = fuel - 1;
            match self.rx.try_recv() {
                Ok(request) => {
                    let ghost req: H::Request = request;
                    let answer = self.handler.on_request(request);
                    let ghost ans: Option<H::Seed> = answer;
                    self.hist = Ghost(self.hist@.push(req));
                    self.answers = Ghost(self.answers@.push(ans));
                    proof {
                        assert(self.hist@.take(before.len() as int) =~= before);
                        assert(self.answers@.take(before_answers.len() as int)
                            =~= before_answers);
                    }
                    match answer {
                        Some(seed) => {
                            return Response::Spawn(seed);
                        },
                        None => {},
                    }
                },
                Err(TryRecvError::Empty) => {
                    return Response::Continue;
                },
                Err(TryRecvError::Disconnected) => {
                    return Response::Terminate;
                },
            }
        }
    }

    /// Answer a wakeup signal from the notifier — the one lifecycle event
    /// this machine expects. Shares the drain logic of
    /// [`RequestMachine::spawned`] exactly, since a wakeup may coincide
    /// with the completion of the machine's construction.
    pub fn wakeup(&mut self) -> (r: Response<H::Seed>)
        requires
            old(self).wf(),
            !old(self).finished(),
        ensures
            Self::drained(*old(self), *final(self), r),
    {
        self.spawned()
    }
}

/// Delivery is exact: a well-formed request machine has handed its handler
/// precisely the requests its receiver took off the channel — none lost,
/// none duplicated, in the order they were taken.
pub proof fn lemma_delivery_exactly_once<H: RequestHandler>(m: &RequestMachine<H>)
    requires
        m.wf(),
    ensures
        m.delivered().len() == m.taken().len(),
        forall|i: int| 0 <= i < m.taken().len() ==> m.delivered()[i] == m.taken()[i],
{
}

/// A wakeup episode composes: a drain that ends in a spawn instruction,
/// followed by the drain the driver re-invokes, behaves like one drain.
/// Across both calls delivery only grows and stays in order — what was
/// delivered before the episode is still an unchanged prefix afterwards,
/// so a request that triggered a spawn costs no other request its
/// delivery.
pub proof fn lemma_episode_composes<H: RequestHandler>(
    a: RequestMachine<H>,
    b: RequestMachine<H>,
    c: RequestMachine<H>,
    r1: Response<H::Seed>,
    r2: Response<H::Seed>,
)
    requires
        RequestMachine::drained(a, b, r1),
        RequestMachine::drained(b, c, r2),
    ensures
        c.delivered().len() >= a.delivered().len(),
        c.delivered().take(a.delivered().len() as int) == a.delivered(),
{
    assert(c.delivered().take(a.delivered().len() as int) =~= a.delivered());
}

} // verus!
