use vstd::prelude::*;
use crate::sample::HeartRateData;

verus! {

/// What one sample produced: the value handed to the channel and the value
/// handed to the event sink, where each was registered.
#[derive(Clone, Copy, Debug, PartialEq, Eq, Structural)]
pub struct Fanout {
    pub to_channel: Option<HeartRateData>,
    pub to_event_sink: Option<HeartRateData>,
}

/// The deliveries that a sample owes to a registration: one copy to each sink
/// that is present, none to an absent one.
pub open spec fn fanout_of(has_channel: bool, has_sink: bool, s: HeartRateData) -> Fanout {
    Fanout {
        to_channel: if has_channel { Some(s) } else { None },
        to_event_sink: if has_sink { Some(s) } else { None },
    }
}

/// The registration that native callbacks read: a channel sender and a handle
/// to the host's event facility. Both are replaced together.
pub struct CallbackRelay<C, E> {
    channel: Option<C>,
    event_sink: Option<E>,
}

impl<C, E> CallbackRelay<C, E> {
    pub closed spec fn channel_spec(&self) -> Option<C> {
        self.channel
    }

    pub closed spec fn event_sink_spec(&self) -> Option<E> {
        self.event_sink
    }

    /// A relay with nothing registered.
    pub fn new() -> (r: Self)
        ensures
            r.channel_spec() is None,
            r.event_sink_spec() is None,
    {
        CallbackRelay { channel: None, event_sink: None }
    }

    /// Installs a channel and an event sink, replacing any earlier pair.
    pub fn register(&mut self, channel: C, event_sink: E)
        ensures
            final(self).channel_spec() == Some(channel),
            final(self).event_sink_spec() == Some(event_sink),
    {
        self.channel = Some(channel);
        self.event_sink = Some(event_sink);
    }

    /// Removes the registration.
    pub fn clear(&mut self)
        ensures
            final(self).channel_spec() is None,
            final(self).event_sink_spec() is None,
    {
        self.channel = None;
        self.event_sink = None;
    }

    pub fn has_registration(&self) -> (r: bool)
        ensures
            r == (self.channel_spec() is Some && self.event_sink_spec() is Some),
    {
        self.channel.is_some() && self.event_sink.is_some()
    }

    /// Entry point for a native sample: builds it, hands one copy to the
    /// channel through `send` and one to the event sink through `emit`, each
    /// only if registered, each at most once. Both copies go to the pair that
    /// is registered when the call starts. Failures of either are the sinks'
    /// own to discard, and a failed send does not stop the emit.
    /// The result records what was handed over.
    pub fn on_sample<S: FnOnce(&C, HeartRateData), M: FnOnce(&E, HeartRateData)>(
        &self,
        rate_bits: u64,
        timestamp: u64,
        send: S,
        emit: M,
    ) -> (r: Fanout)
        requires
            forall|c: &C, d: HeartRateData| #[trigger] send.requires((c, d)),
            forall|e: &E, d: HeartRateData| #[trigger] emit.requires((e, d)),
        ensures
            r == fanout_of(
                self.channel_spec() is Some,
                self.event_sink_spec() is Some,
                HeartRateData { rate_bits, timestamp },
            ),
            self.channel_spec() matches Some(c) ==> send.ensures(
                (&c, HeartRateData { rate_bits, timestamp }),
                (),
            ),
            self.event_sink_spec() matches Some(e) ==> emit.ensures(
                (&e, HeartRateData { rate_bits, timestamp }),
                (),
            ),
    {
        let data = HeartRateData::new(rate_bits, timestamp);
        let mut to_channel: Option<HeartRateData> = None;
        let mut to_event_sink: Option<HeartRateData> = None;
        match &self.channel {
            Some(c) => {
                send(c, data);
                to_channel = Some(data);
            },
            None => {},
        }
        match &self.event_sink {
            Some(e) => {
                emit(e, data);
                to_event_sink = Some(data);
            },
            None => {},
        }
        Fanout { to_channel, to_event_sink }
    }
}

/// A sample reaching a relay with both sinks registered is delivered once to
/// each, and both copies equal the sample.
pub proof fn registered_sample_reaches_both(s: HeartRateData)
    ensures
        fanout_of(true, true, s).to_channel == Some(s),
        fanout_of(true, true, s).to_event_sink == Some(s),
{
}

/// A sample reaching a relay with nothing registered is delivered nowhere.
pub proof fn unregistered_sample_goes_nowhere(s: HeartRateData)
    ensures
        fanout_of(false, false, s).to_channel is None,
        fanout_of(false, false, s).to_event_sink is None,
{
}

} // verus!
