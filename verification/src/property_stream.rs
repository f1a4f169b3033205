//! The property-stream watcher: the variant that connects to the system
//! session bus, builds a proxy for the logged-in session, reads the
//! locked property once, and then subscribes to its change stream.
//!
//! The bus itself only signals real changes, so this watcher passes every
//! well-formed change value through without de-duplicating; a change
//! notification whose value cannot be extracted is skipped without
//! terminating the stream. A failed connection or proxy construction
//! stops the watcher before anything is emitted.

use vstd::prelude::*;
use crate::polling::collapse_repeats;

verus! {

/// Where a property-stream watcher stands in its life.
#[derive(Clone, Copy, PartialEq, Eq, Structural, Debug)]
pub enum PropertyStreamPhase {
    /// Waiting for the session-bus connection to be opened.
    NeedConnection,
    /// Waiting for the session proxy to be built.
    NeedProxy,
    /// Waiting for the one initial read of the locked property.
    NeedInitialRead,
    /// Subscribed, consuming the property's change stream.
    Streaming,
    /// Terminated, deliberately or after a failed setup step.
    Stopped,
}

/// The property-stream watcher: its phase and whether the bus
/// connection is currently open.
pub struct PropertyStreamWatcher {
    pub phase: PropertyStreamPhase,
    /// Whether the session-bus connection currently exists.
    pub connection_open: bool,
}

impl PropertyStreamWatcher {
    /// The resources a watcher may hold in each phase. A stopped
    /// watcher holds no connection.
    pub open spec fn wf(self) -> bool {
        &&& self.phase == PropertyStreamPhase::NeedConnection ==> !self.connection_open
        &&& (self.phase == PropertyStreamPhase::NeedProxy || self.phase
            == PropertyStreamPhase::NeedInitialRead || self.phase
            == PropertyStreamPhase::Streaming) ==> self.connection_open
        &&& self.phase == PropertyStreamPhase::Stopped ==> !self.connection_open
    }

    /// A watcher about to open its connection.
    pub fn new() -> (w: PropertyStreamWatcher)
        ensures
            w.phase == PropertyStreamPhase::NeedConnection,
            !w.connection_open,
            w.wf(),
    {
        PropertyStreamWatcher { phase: PropertyStreamPhase::NeedConnection, connection_open: false }
    }

    /// Reports whether the session-bus connection was opened. On
    /// failure the watcher stops silently with nothing held.
    pub fn connection_opened(&mut self, ok: bool) -> (proceed: bool)
        requires
            old(self).wf(),
            old(self).phase == PropertyStreamPhase::NeedConnection,
        ensures
            proceed == ok,
            final(self).phase == (if ok {
                PropertyStreamPhase::NeedProxy
            } else {
                PropertyStreamPhase::Stopped
            }),
            final(self).connection_open == ok,
            final(self).wf(),
    {
        self.phase = if ok {
            PropertyStreamPhase::NeedProxy
        } else {
            PropertyStreamPhase::Stopped
        };
        self.connection_open = ok;
        ok
    }

    /// Reports whether the session proxy was built. On failure the
    /// watcher stops and gives the connection up: the caller must close
    /// it, so that a failed setup leaves nothing open.
    pub fn proxy_built(&mut self, ok: bool) -> (proceed: bool)
        requires
            old(self).wf(),
            old(self).phase == PropertyStreamPhase::NeedProxy,
        ensures
            proceed == ok,
            final(self).phase == (if ok {
                PropertyStreamPhase::NeedInitialRead
            } else {
                PropertyStreamPhase::Stopped
            }),
            final(self).connection_open == ok,
            final(self).wf(),
    {
        self.phase = if ok {
            PropertyStreamPhase::NeedInitialRead
        } else {
            PropertyStreamPhase::Stopped
        };
        self.connection_open = ok;
        ok
    }

    /// Consumes the one initial read of the locked property, made so
    /// that a session that is already locked when the watcher starts is
    /// reported at once. A successful read is emitted as the initial
    /// state; a failed read is skipped and the subscription goes ahead
    /// regardless.
    pub fn initial_read(&mut self, reading: Option<bool>) -> (notify: Option<bool>)
        requires
            old(self).wf(),
            old(self).phase == PropertyStreamPhase::NeedInitialRead,
        ensures
            notify == reading,
            final(self).phase == PropertyStreamPhase::Streaming,
            final(self).connection_open,
            final(self).wf(),
    {
        self.phase = PropertyStreamPhase::Streaming;
        reading
    }

    /// Consumes one change notification from the property stream. The
    /// extracted value is passed through as it came — the bus is relied
    /// upon to signal only real changes, so no de-duplication happens at
    /// this layer — and a malformed notification, one whose value could
    /// not be extracted, produces nothing and does not end the stream.
    pub fn property_changed(&self, reading: Option<bool>) -> (notify: Option<bool>)
        requires
            self.wf(),
            self.phase == PropertyStreamPhase::Streaming,
        ensures
            notify == reading,
    {
        reading
    }

    /// The change stream has ended (the bus is gone): the watcher stops
    /// and the connection is given up.
    pub fn stream_ended(&mut self)
        requires
            old(self).wf(),
            old(self).phase == PropertyStreamPhase::Streaming,
        ensures
            final(self).phase == PropertyStreamPhase::Stopped,
            !final(self).connection_open,
            final(self).wf(),
    {
        self.phase = PropertyStreamPhase::Stopped;
        self.connection_open = false;
    }
}

/// The notifications a subscribed watcher produces for a sequence of
/// change notifications: every well-formed value, in order; malformed
/// ones vanish.
pub open spec fn spec_signal_emissions(signals: Seq<Option<bool>>) -> Seq<bool>
    decreases signals.len(),
{
    if signals.len() == 0 {
        Seq::empty()
    } else {
        spec_signal_emissions(signals.drop_last()) + (match signals.last() {
            Some(v) => seq![v],
            None => Seq::empty(),
        })
    }
}

/// The notifications of a whole watcher life: nothing at all unless
/// both the connection and the proxy came up; otherwise the initial
/// reading, if it was readable, followed by every well-formed change
/// value.
pub open spec fn spec_stream_emissions(
    connection_ok: bool,
    proxy_ok: bool,
    initial: Option<bool>,
    signals: Seq<Option<bool>>,
) -> Seq<bool> {
    if connection_ok && proxy_ok {
        (match initial {
            Some(v) => seq![v],
            None => Seq::empty(),
        }) + spec_signal_emissions(signals)
    } else {
        Seq::empty()
    }
}

/// Runs one whole watcher life: the two setup outcomes, the initial
/// property reading, then every change notification the stream would
/// yield, then teardown. A failed setup step yields zero notifications,
/// and the watcher always comes back stopped with the connection
/// closed.
pub fn watch_property_stream(
    connection_ok: bool,
    proxy_ok: bool,
    initial: Option<bool>,
    signals: &Vec<Option<bool>>,
) -> (r: (PropertyStreamWatcher, Vec<bool>))
    ensures
        r.1@ == spec_stream_emissions(connection_ok, proxy_ok, initial, signals@),
        !(connection_ok && proxy_ok) ==> r.1@ == Seq::<bool>::empty(),
        r.0.phase == PropertyStreamPhase::Stopped,
        !r.0.connection_open,
{
    let mut w = PropertyStreamWatcher::new();
    let mut notifies: Vec<bool> = Vec::new();
    if !w.connection_opened(connection_ok) {
        return (w, notifies);
    }
    if !w.proxy_built(proxy_ok) {
        return (w, notifies);
    }
    if let Some(v) = w.initial_read(initial) {
        notifies.push(v);
    }
    let ghost prefix: Seq<bool> = notifies@;
    let mut i: usize = 0;
    while i < signals.len()
        invariant
            i <= signals@.len(),
            notifies@ == prefix + spec_signal_emissions(signals@.take(i as int)),
            w.phase == PropertyStreamPhase::Streaming,
            w.wf(),
        decreases signals@.len() - i,
    {
        proof {
            lemma_signal_emissions_step(signals@, i as int);
        }
        let notify = w.property_changed(signals[i]);
        if let Some(v) = notify {
            notifies.push(v);
        }
        i = i + 1;
    }
    proof {
        assert(signals@.take(signals@.len() as int) =~= signals@);
        assert(prefix + spec_signal_emissions(signals@) =~= spec_stream_emissions(
            connection_ok,
            proxy_ok,
            initial,
            signals@,
        ));
    }
    w.stream_ended();
    (w, notifies)
}

/// Extending the change stream by one notification appends exactly its
/// well-formed value, or nothing.
proof fn lemma_signal_emissions_step(signals: Seq<Option<bool>>, i: int)
    requires
        0 <= i < signals.len(),
    ensures
        spec_signal_emissions(signals.take(i + 1)) == (match signals[i] {
            Some(v) => spec_signal_emissions(signals.take(i)).push(v),
            None => spec_signal_emissions(signals.take(i)),
        }),
{
    let t = signals.take(i + 1);
    assert(t.drop_last() =~= signals.take(i));
    assert(t.last() == signals[i]);
    match signals[i] {
        Some(v) => {
            assert(spec_signal_emissions(t.drop_last()) + seq![v] =~= spec_signal_emissions(
                signals.take(i),
            ).push(v));
        },
        None => {
            assert(spec_signal_emissions(t.drop_last()) + Seq::<bool>::empty()
                =~= spec_signal_emissions(signals.take(i)));
        },
    }
}

/// A change stream in which every notification is malformed produces no
/// notification at all.
pub proof fn lemma_malformed_signals_are_silent(signals: Seq<Option<bool>>)
    requires
        forall|i: int| 0 <= i < signals.len() ==> #[trigger] signals[i] is None,
    ensures
        spec_signal_emissions(signals) == Seq::<bool>::empty(),
    decreases signals.len(),
{
    if signals.len() == 0 {
    } else {
        lemma_malformed_signals_are_silent(signals.drop_last());
        assert(signals.last() == signals[signals.len() - 1]);
        assert(spec_signal_emissions(signals) =~= Seq::<bool>::empty());
    }
}

/// A change stream whose every notification is well-formed passes
/// through unchanged: subscription is pure pass-through.
pub proof fn lemma_well_formed_signals_pass_through(values: Seq<bool>)
    ensures
        spec_signal_emissions(values.map_values(|v: bool| Some(v))) == values,
    decreases values.len(),
{
    let signals = values.map_values(|v: bool| Some(v));
    if values.len() == 0 {
        assert(signals.len() == 0);
        assert(spec_signal_emissions(signals) =~= values);
    } else {
        lemma_well_formed_signals_pass_through(values.drop_last());
        assert(signals.drop_last() =~= values.drop_last().map_values(|v: bool| Some(v)));
        assert(signals.last() == Some(values.last()));
        assert(spec_signal_emissions(signals) == spec_signal_emissions(signals.drop_last())
            + seq![values.last()]);
        assert(spec_signal_emissions(signals.drop_last()) + seq![values.last()] =~= values);
    }
}

/// The two event-driven pictures agree. If the bus does its own
/// de-duplication — for a property timeline it delivers exactly the
/// change signals, the first value and every value that differs from
/// its predecessor — then the pass-through watcher notifies exactly
/// what a polling watcher observing the raw timeline would emit.
pub proof fn lemma_signal_and_polling_watchers_agree(timeline: Seq<bool>)
    ensures
        spec_signal_emissions(collapse_repeats(timeline).map_values(|v: bool| Some(v)))
            == collapse_repeats(timeline),
{
    lemma_well_formed_signals_pass_through(collapse_repeats(timeline));
}

} // verus!
