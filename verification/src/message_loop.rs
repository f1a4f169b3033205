//! The message-loop watcher: the variant that resolves its module handle,
//! registers a minimal window class, creates one hidden window, registers
//! it for session-change notifications, and then decodes every message a
//! blocking retrieval loop hands back.
//!
//! The native calls themselves belong to the embedding application; this
//! module is the machine that decides, after each call, whether to go on,
//! what to release, and what to emit. A setup failure at any stage stops
//! the watcher silently: no notification is ever produced and no native
//! resource stays held.

use vstd::prelude::*;

verus! {

/// The message number that carries a session state change.
pub const SESSION_CHANGE_MESSAGE: u32 = 0x02B1;

/// The state code such a message carries when a session was locked.
pub const SESSION_LOCK_CODE: u32 = 0x7;

/// The state code such a message carries when a session was unlocked.
pub const SESSION_UNLOCK_CODE: u32 = 0x8;

/// A raw message as the retrieval loop sees it: the message number and
/// the state code carried in its parameter word.
#[derive(Clone, Copy, PartialEq, Eq, Structural, Debug)]
pub struct SessionMessage {
    pub message: u32,
    pub code: u32,
}

/// What one raw message means for the lock state: `Some(true)` for a
/// session-change message with the lock code, `Some(false)` for one with
/// the unlock code, and `None` for everything else.
pub open spec fn spec_decode_message(m: SessionMessage) -> Option<bool> {
    if m.message == SESSION_CHANGE_MESSAGE && m.code == SESSION_LOCK_CODE {
        Some(true)
    } else if m.message == SESSION_CHANGE_MESSAGE && m.code == SESSION_UNLOCK_CODE {
        Some(false)
    } else {
        None
    }
}

/// Decodes one raw message. Unrelated messages, and session-change
/// messages with any other state code, produce no notification.
pub fn decode_message(m: SessionMessage) -> (notify: Option<bool>)
    ensures
        notify == spec_decode_message(m),
{
    if m.message == SESSION_CHANGE_MESSAGE && m.code == SESSION_LOCK_CODE {
        Some(true)
    } else if m.message == SESSION_CHANGE_MESSAGE && m.code == SESSION_UNLOCK_CODE {
        Some(false)
    } else {
        None
    }
}

/// Where a message-loop watcher stands in its life: the four setup
/// stages in order, then listening, then stopped for good.
#[derive(Clone, Copy, PartialEq, Eq, Structural, Debug)]
pub enum MessageLoopPhase {
    /// Waiting for the process's module handle to be resolved.
    NeedModuleHandle,
    /// Waiting for the window class to be registered.
    NeedWindowClass,
    /// Waiting for the hidden window to be created.
    NeedWindow,
    /// Waiting for the session-change registration of that window.
    NeedSessionRegistration,
    /// Inside the blocking message retrieval loop.
    Listening,
    /// Terminated, deliberately or after a failed setup step.
    Stopped,
}

/// The message-loop watcher: its phase and which native resources it
/// currently holds.
pub struct MessageLoopWatcher {
    pub phase: MessageLoopPhase,
    /// Whether the hidden window currently exists.
    pub window_open: bool,
    /// Whether the window is currently registered for session changes.
    pub session_registered: bool,
}

impl MessageLoopWatcher {
    /// The resources a watcher may hold in each phase. In particular, a
    /// stopped watcher holds nothing: whoever drives the machine has
    /// been told to release whatever had been acquired.
    pub open spec fn wf(self) -> bool {
        &&& (self.phase == MessageLoopPhase::NeedModuleHandle || self.phase
            == MessageLoopPhase::NeedWindowClass || self.phase == MessageLoopPhase::NeedWindow)
            ==> (!self.window_open && !self.session_registered)
        &&& self.phase == MessageLoopPhase::NeedSessionRegistration ==> (self.window_open
            && !self.session_registered)
        &&& self.phase == MessageLoopPhase::Listening ==> (self.window_open
            && self.session_registered)
        &&& self.phase == MessageLoopPhase::Stopped ==> (!self.window_open
            && !self.session_registered)
    }

    /// A watcher about to take its first setup step.
    pub fn new() -> (w: MessageLoopWatcher)
        ensures
            w.phase == MessageLoopPhase::NeedModuleHandle,
            !w.window_open,
            !w.session_registered,
            w.wf(),
    {
        MessageLoopWatcher {
            phase: MessageLoopPhase::NeedModuleHandle,
            window_open: false,
            session_registered: false,
        }
    }

    /// Reports whether the module handle was resolved. On failure the
    /// watcher stops; nothing had been acquired, so nothing is held.
    pub fn module_resolved(&mut self, ok: bool) -> (proceed: bool)
        requires
            old(self).wf(),
            old(self).phase == MessageLoopPhase::NeedModuleHandle,
        ensures
            proceed == ok,
            final(self).phase == (if ok {
                MessageLoopPhase::NeedWindowClass
            } else {
                MessageLoopPhase::Stopped
            }),
            !final(self).window_open,
            !final(self).session_registered,
            final(self).wf(),
    {
        self.phase = if ok {
            MessageLoopPhase::NeedWindowClass
        } else {
            MessageLoopPhase::Stopped
        };
        ok
    }

    /// Reports whether the window class was registered. A collision with
    /// an already-registered class counts as failure and is fatal to
    /// this watcher instance: it stops rather than retry.
    pub fn class_registered(&mut self, ok: bool) -> (proceed: bool)
        requires
            old(self).wf(),
            old(self).phase == MessageLoopPhase::NeedWindowClass,
        ensures
            proceed == ok,
            final(self).phase == (if ok {
                MessageLoopPhase::NeedWindow
            } else {
                MessageLoopPhase::Stopped
            }),
            !final(self).window_open,
            !final(self).session_registered,
            final(self).wf(),
    {
        self.phase = if ok {
            MessageLoopPhase::NeedWindow
        } else {
            MessageLoopPhase::Stopped
        };
        ok
    }

    /// Reports whether the hidden window was created (a null handle
    /// counts as failure). Only a successful creation leaves a window
    /// held.
    pub fn window_created(&mut self, ok: bool) -> (proceed: bool)
        requires
            old(self).wf(),
            old(self).phase == MessageLoopPhase::NeedWindow,
        ensures
            proceed == ok,
            final(self).phase == (if ok {
                MessageLoopPhase::NeedSessionRegistration
            } else {
                MessageLoopPhase::Stopped
            }),
            final(self).window_open == ok,
            !final(self).session_registered,
            final(self).wf(),
    {
        self.phase = if ok {
            MessageLoopPhase::NeedSessionRegistration
        } else {
            MessageLoopPhase::Stopped
        };
        self.window_open = ok;
        ok
    }

    /// Reports whether the session-change registration succeeded. On
    /// failure the watcher stops and gives the window up: the caller
    /// must destroy it, so that a failed setup leaves nothing open.
    pub fn session_registration_done(&mut self, ok: bool) -> (proceed: bool)
        requires
            old(self).wf(),
            old(self).phase == MessageLoopPhase::NeedSessionRegistration,
        ensures
            proceed == ok,
            final(self).phase == (if ok {
                MessageLoopPhase::Listening
            } else {
                MessageLoopPhase::Stopped
            }),
            final(self).window_open == ok,
            final(self).session_registered == ok,
            final(self).wf(),
    {
        self.phase = if ok {
            MessageLoopPhase::Listening
        } else {
            MessageLoopPhase::Stopped
        };
        self.window_open = ok;
        self.session_registered = ok;
        ok
    }

    /// The blocking retrieval loop has returned its final message: the
    /// watcher stops, the registration is undone and the window closed.
    pub fn loop_ended(&mut self)
        requires
            old(self).wf(),
            old(self).phase == MessageLoopPhase::Listening,
        ensures
            final(self).phase == MessageLoopPhase::Stopped,
            !final(self).window_open,
            !final(self).session_registered,
            final(self).wf(),
    {
        self.phase = MessageLoopPhase::Stopped;
        self.window_open = false;
        self.session_registered = false;
    }
}

/// The notifications a listening watcher produces for a sequence of raw
/// messages: each message's decoded meaning, in order, with everything
/// unrelated dropped.
pub open spec fn spec_message_emissions(msgs: Seq<SessionMessage>) -> Seq<bool>
    decreases msgs.len(),
{
    if msgs.len() == 0 {
        Seq::empty()
    } else {
        spec_message_emissions(msgs.drop_last()) + (match spec_decode_message(msgs.last()) {
            Some(v) => seq![v],
            None => Seq::empty(),
        })
    }
}

/// The notifications of a whole watcher life: nothing at all unless
/// every one of the four setup steps succeeded, and the decoded message
/// stream otherwise.
pub open spec fn spec_watch_emissions(
    module_ok: bool,
    class_ok: bool,
    window_ok: bool,
    registration_ok: bool,
    msgs: Seq<SessionMessage>,
) -> Seq<bool> {
    if module_ok && class_ok && window_ok && registration_ok {
        spec_message_emissions(msgs)
    } else {
        Seq::empty()
    }
}

/// Runs one whole watcher life: the four setup outcomes in order, then
/// every message the retrieval loop would hand back, then teardown.
/// A failed setup step at any stage yields zero notifications, and the
/// watcher always comes back stopped with no window and no registration
/// still held.
pub fn watch_messages(
    module_ok: bool,
    class_ok: bool,
    window_ok: bool,
    registration_ok: bool,
    msgs: &Vec<SessionMessage>,
) -> (r: (MessageLoopWatcher, Vec<bool>))
    ensures
        r.1@ == spec_watch_emissions(module_ok, class_ok, window_ok, registration_ok, msgs@),
        !(module_ok && class_ok && window_ok && registration_ok) ==> r.1@ == Seq::<bool>::empty(),
        r.0.phase == MessageLoopPhase::Stopped,
        !r.0.window_open,
        !r.0.session_registered,
{
    let mut w = MessageLoopWatcher::new();
    let mut notifies: Vec<bool> = Vec::new();
    if !w.module_resolved(module_ok) {
        return (w, notifies);
    }
    if !w.class_registered(class_ok) {
        return (w, notifies);
    }
    if !w.window_created(window_ok) {
        return (w, notifies);
    }
    if !w.session_registration_done(registration_ok) {
        return (w, notifies);
    }
    let mut i: usize = 0;
    while i < msgs.len()
        invariant
            i <= msgs@.len(),
            notifies@ == spec_message_emissions(msgs@.take(i as int)),
            w.phase == MessageLoopPhase::Listening,
            w.wf(),
        decreases msgs@.len() - i,
    {
        proof {
            lemma_message_emissions_step(msgs@, i as int);
        }
        let notify = decode_message(msgs[i]);
        if let Some(v) = notify {
            notifies.push(v);
        }
        i = i + 1;
    }
    proof {
        assert(msgs@.take(msgs@.len() as int) =~= msgs@);
    }
    w.loop_ended();
    (w, notifies)
}

/// Extending the message stream by one message appends exactly that
/// message's decoded meaning.
proof fn lemma_message_emissions_step(msgs: Seq<SessionMessage>, i: int)
    requires
        0 <= i < msgs.len(),
    ensures
        spec_message_emissions(msgs.take(i + 1)) == (match spec_decode_message(msgs[i]) {
            Some(v) => spec_message_emissions(msgs.take(i)).push(v),
            None => spec_message_emissions(msgs.take(i)),
        }),
{
    let t = msgs.take(i + 1);
    assert(t.drop_last() =~= msgs.take(i));
    assert(t.last() == msgs[i]);
    match spec_decode_message(msgs[i]) {
        Some(v) => {
            assert(spec_message_emissions(t) == spec_message_emissions(t.drop_last()) + seq![v]);
            assert(spec_message_emissions(t.drop_last()) + seq![v] =~= spec_message_emissions(
                msgs.take(i),
            ).push(v));
        },
        None => {
            assert(spec_message_emissions(t) == spec_message_emissions(t.drop_last())
                + Seq::<bool>::empty());
            assert(spec_message_emissions(t.drop_last()) + Seq::<bool>::empty()
                =~= spec_message_emissions(msgs.take(i)));
        },
    }
}

/// A message stream in which nothing decodes to a lock-state change
/// produces no notification at all.
pub proof fn lemma_unrelated_messages_are_silent(msgs: Seq<SessionMessage>)
    requires
        forall|i: int| 0 <= i < msgs.len() ==> spec_decode_message(#[trigger] msgs[i]) is None,
    ensures
        spec_message_emissions(msgs) == Seq::<bool>::empty(),
    decreases msgs.len(),
{
    if msgs.len() == 0 {
    } else {
        lemma_unrelated_messages_are_silent(msgs.drop_last());
        assert(msgs.last() == msgs[msgs.len() - 1]);
        assert(spec_message_emissions(msgs) =~= Seq::<bool>::empty());
    }
}

} // verus!
