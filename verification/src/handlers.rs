//! The capability that application code plugs into a request machine.

use vstd::prelude::*;

verus! {

/// Translates one incoming request into an optional seed for a new machine.
///
/// The single operation is called synchronously, exactly once per drained
/// request, in the order the requests were taken off the queue. It must not
/// block: any blocking here stalls the whole single-threaded event loop.
/// Whether a request yields a seed — and what the seed is — is entirely the
/// implementor's business; the relay neither inspects nor wraps it.
pub trait RequestHandler {
    /// The request values carried over the channel, opaque to the relay.
    type Request;

    /// Describes how to construct a new machine instance.
    ///
    /// A seed is produced at most once per request.
    type Seed;

    /// Decide what, if anything, to spawn for one request.
    fn on_request(&mut self, request: Self::Request) -> Option<Self::Seed>;
}

} // verus!
