//! The extension contract and the unit of registration.

use vstd::prelude::*;

verus! {

/// The contract every loaded extension implements. The host calls
/// `process_privmsg` synchronously on its single event-loop thread, once
/// per inbound message per extension; a returned string is relayed
/// verbatim to the event's target, `None` means no relay. Extension code
/// is untrusted: nothing is assumed here about what it returns. Handler
/// failures are deliberately not isolated — a handler that panics aborts
/// the remaining dispatch pass along with the host loop.
pub trait Plugin {
    fn process_privmsg(&self, source: &str, target: &str, message: &str) -> Option<String>;
}

/// One loaded extension together with the handle that owns the code
/// image its instance lives in: the unit of registration. The composite
/// exclusively owns both; `instance` is declared first so that it is torn
/// down before `handle` releases the image it points into.
pub struct LoadedExtension<H, E> {
    /// The object implementing the extension contract.
    pub instance: E,
    /// Exclusive owner of the opened code image, released only here,
    /// after `instance`.
    pub handle: H,
}

} // verus!
