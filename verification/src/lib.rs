//! Detection of the operating-system session's screen-lock state.
//!
//! A desktop application wants to know, in real time, whether the user's
//! session is locked or unlocked, and wants one `locked: bool` event per
//! transition, whichever of three native mechanisms reports it:
//!
//! * a message loop on a hidden native window that receives session-change
//!   notifications ([`message_loop`]),
//! * a session-bus subscription to the logged-in session's locked property
//!   ([`property_stream`]),
//! * a periodic probe of the graphical session's state dictionary
//!   ([`polling`]).
//!
//! Each variant is modelled here as a state machine over plain values: the
//! outcome of every native setup step and every observation the platform
//! hands back are its events, and the notifications to deliver are its
//! outputs. The blocking native calls themselves live with the embedding
//! application, which drives these machines and forwards whatever they
//! decide to emit.

use vstd::prelude::*;

pub mod device;
pub mod message_loop;
pub mod polling;
pub mod property_stream;

verus! {

/// The event delivered to the application's event bus whenever the
/// session's lock state changes. It carries nothing but the new state:
/// no history, no sequence number.
#[derive(Clone, Copy, PartialEq, Eq, Structural, Debug)]
pub struct LockStateChange {
    pub locked: bool,
}

} // verus!
