//! The funnel channel: an unbounded multi-producer, single-consumer queue
//! wired to the event loop's wakeup mechanism.
//!
//! The queue itself is `std::sync::mpsc`, taken on trust at a thin boundary;
//! everything the relay decides about the values it carries is verified. The
//! consumer side keeps a ghost history of every value it has taken, so the
//! request machine can state — and prove — that whatever it takes off the
//! queue is handed on exactly once, in order.

use vstd::prelude::*;

verus! {

#[verifier::external_type_specification]
#[verifier::external_body]
#[verifier::reject_recursive_types(T)]
pub struct ExSender<T>(std::sync::mpsc::Sender<T>);

#[verifier::external_type_specification]
#[verifier::external_body]
#[verifier::reject_recursive_types(T)]
pub struct ExReceiver<T>(std::sync::mpsc::Receiver<T>);

/// Relies on std::sync::mpsc::channel: creates an unbounded queue and
/// returns its producer and consumer endpoints.
pub assume_specification<T>[ std::sync::mpsc::channel::<T> ]() -> (r: (
    std::sync::mpsc::Sender<T>,
    std::sync::mpsc::Receiver<T>,
));

/// Relies on std::sync::mpsc::Sender::send: enqueues the value without
/// blocking; if the consumer endpoint is gone, the value comes back unused.
#[verifier::external_body]
fn send_raw<T>(tx: &std::sync::mpsc::Sender<T>, value: T) -> (r: Result<(), T>)
    ensures
        r matches Err(v) ==> v == value,
{
    match tx.send(value) {
        Ok(()) => Ok(()),
        Err(std::sync::mpsc::SendError(v)) => Err(v),
    }
}

/// Relies on std::sync::mpsc::Sender::clone: the clone feeds the same queue
/// and may be moved to another thread.
#[verifier::external_body]
fn clone_sender<T>(tx: &std::sync::mpsc::Sender<T>) -> (r: std::sync::mpsc::Sender<T>)
{
    tx.clone()
}

/// Why a non-blocking receive returned no value.
#[derive(Clone, Copy, Debug, PartialEq, Eq)]
pub enum TryRecvError {
    /// Nothing is queued right now; more may yet arrive.
    Empty,
    /// Every producer handle is gone and the queue is exhausted.
    /// This is permanent: no further value will ever arrive.
    Disconnected,
}

/// The error of a failed send: the consumer endpoint no longer exists.
/// Carries the rejected value back to the caller.
#[derive(Debug)]
pub struct SendError<T>(pub T);

/// A cloneable, thread-safe handle that wakes the event loop: cheap to
/// clone, safe to signal from any thread.
///
/// Signaling it asks the single-threaded event loop to wake up and re-invoke
/// the machine that owns the corresponding registration. Signals may be
/// coalesced: many signals before the loop next wakes can come out as one.
pub struct Notifier {
    tx: std::sync::mpsc::Sender<()>,
}

/// The consumer half of a funnel channel, owned by exactly one request
/// machine for the machine's whole lifetime; it is never cloned.
///
/// `taken()` is the ghost history of every value this endpoint has received,
/// in the order it received them; `is_disconnected()` records whether the
/// permanent end of the channel has been observed.
#[verifier::reject_recursive_types(T)]
pub struct Receiver<T> {
    rx: std::sync::mpsc::Receiver<T>,
    seen: Ghost<Seq<T>>,
    hung: Ghost<bool>,
}

/// The producer handle of a funnel channel, shared by all producers.
///
/// Cloning is cheap and safe; each clone may be used from a different
/// thread, and every clone feeds the same receiver.
#[verifier::reject_recursive_types(T)]
pub struct Funnel<T> {
    tx: std::sync::mpsc::Sender<T>,
    notifier: Notifier,
}

impl<T> Receiver<T> {
    /// Every value this endpoint has taken off the queue, oldest first.
    pub closed spec fn taken(&self) -> Seq<T> {
        self.seen@
    }

    /// Whether this endpoint has observed permanent disconnection.
    pub closed spec fn is_disconnected(&self) -> bool {
        self.hung@
    }

    /// Relies on std::sync::mpsc::Receiver::try_recv: returns a queued value
    /// if one is ready, `Empty` if none is queued right now, `Disconnected`
    /// once every sender is gone and the queue is exhausted; never blocks.
    ///
    /// Concurrent producers decide which of the three outcomes comes back;
    /// the contract only records the outcome in the ghost take-history.
    #[verifier::external_body]
    pub fn try_recv(&mut self) -> (r: Result<T, TryRecvError>)
        requires
            !old(self).is_disconnected(),
        ensures
            match r {
                Ok(v) => final(self).taken() == old(self).taken().push(v)
                    && !final(self).is_disconnected(),
                Err(TryRecvError::Empty) => final(self).taken() == old(self).taken()
                    && !final(self).is_disconnected(),
                Err(TryRecvError::Disconnected) => final(self).taken() == old(self).taken()
                    && final(self).is_disconnected(),
            },
    {
        match self.rx.try_recv() {
            Ok(v) => Ok(v),
            Err(std::sync::mpsc::TryRecvError::Empty) => Err(TryRecvError::Empty),
            Err(std::sync::mpsc::TryRecvError::Disconnected) => Err(TryRecvError::Disconnected),
        }
    }
}

impl<T> Funnel<T> {
    /// Enqueue `value` for the receiver and signal the notifier once.
    ///
    /// Never blocks and applies no backpressure: while the receiver exists
    /// the send succeeds even if the receiver is not currently draining.
    /// Once the receiver is gone the value comes back in the error.
    pub fn send(&self, value: T) -> (r: Result<(), SendError<T>>)
        ensures
            r matches Err(e) ==> e.0 == value,
    {
        match send_raw(&self.tx, value) {
            Ok(()) => {
                self.notifier.notify();
                Ok(())
            },
            Err(v) => Err(SendError(v)),
        }
    }
}

impl<T> Clone for Funnel<T> {
    /// A new handle on the same channel and the same notifier.
    fn clone(&self) -> Self {
        Funnel { tx: clone_sender(&self.tx), notifier: self.notifier.clone() }
    }
}

impl Notifier {
    /// Signal the event loop to wake.
    ///
    /// Returns whether the wakeup endpoint still existed to be signaled;
    /// `false` means the event loop side is already gone.
    pub fn notify(&self) -> (r: bool) {
        match send_raw(&self.tx, ()) {
            Ok(()) => true,
            Err(_) => false,
        }
    }
}

impl Clone for Notifier {
    /// A new handle signaling the same wakeup endpoint.
    fn clone(&self) -> Self {
        Notifier { tx: clone_sender(&self.tx) }
    }
}

/// The event loop's receiving end of the wakeup line.
///
/// The driver owning it polls [`WakeupReceiver::take_signal`] and, whenever
/// it reports a pending signal, wakes the registered machine.
pub struct WakeupReceiver {
    rx: Receiver<()>,
    done: bool,
}

impl WakeupReceiver {
    /// How many signals this endpoint has consumed so far.
    pub closed spec fn signals_seen(&self) -> nat {
        self.rx.taken().len()
    }

    /// Whether every notifier handle is gone, with no signal left pending.
    pub closed spec fn is_done(&self) -> bool {
        self.rx.is_disconnected()
    }

    /// The endpoint's bookkeeping matches what it has observed.
    pub closed spec fn wf(&self) -> bool {
        self.done == self.is_done()
    }

    /// Consume every signal currently pending, without blocking.
    ///
    /// Returns whether there was at least one — many signals sent since the
    /// last call coalesce into one wakeup, which is expected: the woken
    /// machine drains its whole queue, not one item per signal.
    pub fn take_signal(&mut self) -> (r: bool)
        requires
            old(self).wf(),
        ensures
            final(self).wf(),
            r == (final(self).signals_seen() > old(self).signals_seen()),
    {
        if self.done {
            return false;
        }
        let ghost before: nat = self.rx.taken().len();
        let mut got: bool = false;
        let mut fuel: usize = usize::MAX;
        #[verifier::loop_isolation(false)]
        loop
            invariant
                self.done == false,
                !self.rx.is_disconnected(),
                self.rx.taken().len() >= before,
                got == (self.rx.taken().len() > before),
            decreases fuel,
        {
            if fuel == 0 {
                return got;
            }
            fuel = fuel - 1;
            match self.rx.try_recv() {
                Ok(_) => {
                    got = true;
                },
                Err(TryRecvError::Empty) => {
                    return got;
                },
                Err(TryRecvError::Disconnected) => {
                    self.done = true;
                    return got;
                },
            }
        }
    }
}

/// Create a wakeup line: a cloneable [`Notifier`] for the producers'
/// side and the [`WakeupReceiver`] the event-loop driver keeps.
pub fn notifier_channel() -> (r: (Notifier, WakeupReceiver))
    ensures
        r.1.wf(),
        r.1.signals_seen() == 0,
        !r.1.is_done(),
{
    let (tx, rx) = std::sync::mpsc::channel();
    (
        Notifier { tx },
        WakeupReceiver {
            rx: Receiver { rx, seen: Ghost(Seq::empty()), hung: Ghost(false) },
            done: false,
        },
    )
}

/// Create a funnel channel bound to `notifier`: a cloneable producer handle
/// and the receiver that exactly one request machine will own.
///
/// The pair is created together, atomically: no receiver ever exists without
/// its set of producers, and no producer handle can target another receiver.
pub fn funnel_channel<T>(notifier: Notifier) -> (r: (Funnel<T>, Receiver<T>))
    ensures
        r.1.taken() == Seq::<T>::empty(),
        !r.1.is_disconnected(),
{
    let (tx, rx) = std::sync::mpsc::channel();
    (
        Funnel { tx, notifier },
        Receiver { rx, seen: Ghost(Seq::empty()), hung: Ghost(false) },
    )
}

} // verus!
