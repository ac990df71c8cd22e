use vstd::prelude::*;
use crate::canonical::canonical_text;
use crate::device_lock::DeviceLock;
use crate::message::{convert, convert_spec, ConvertError, DeviceMessage, Kind, MessageModel};

verus! {

/// Outcome of weighing a candidate message against a device's state.
#[derive(Debug, Clone, Copy, PartialEq, Eq, Structural)]
pub enum Decision {
    /// The device expected an echo of its own publish: the message is absorbed.
    LockedEcho,
    /// The message equals the last one seen.
    NoChange,
    /// A genuine change.
    Accepted,
}

/// Why a peer device did not take a message.
#[derive(Debug, Clone, Copy, PartialEq, Eq, Structural)]
pub enum ConsumeError {
    /// The device's last state could not be read as a message of its kind.
    UnreadableState,
    /// The message could not be converted to the device's kind.
    Conversion(ConvertError),
}

/// A message to publish on the bus.
#[derive(Debug)]
pub struct Outbound {
    pub topic: String,
    pub payload: String,
}

/// Value of an [`Outbound`].
pub struct OutboundModel {
    pub topic: Seq<char>,
    pub payload: Seq<char>,
}

impl View for Outbound {
    type V = OutboundModel;

    open spec fn view(&self) -> OutboundModel {
        OutboundModel { topic: self.topic@, payload: self.payload@ }
    }
}

/// A device on the bus: its state topic, message kind, readiness and lock.
/// `context` holds the decoded form of the last message, when it had one.
#[derive(Debug)]
pub struct Device {
    pub topic: String,
    pub kind: Kind,
    pub initialized: bool,
    pub lock: DeviceLock,
    pub context: Option<DeviceMessage>,
}

/// Value of a [`Device`]: `count` and `last` are its lock's.
pub struct DeviceModel {
    pub topic: Seq<char>,
    pub kind: Kind,
    pub initialized: bool,
    pub count: u32,
    pub last: Seq<char>,
    pub context: Option<MessageModel>,
}

impl View for Device {
    type V = DeviceModel;

    open spec fn view(&self) -> DeviceModel {
        DeviceModel {
            topic: self.topic@,
            kind: self.kind,
            initialized: self.initialized,
            count: self.lock.count_locks,
            last: self.lock.last_object_message@,
            context: match self.context {
                Some(m) => Some(m@),
                None => None,
            },
        }
    }
}

/// Locked first, then unchanged, else accepted.
pub open spec fn decision_spec(d: DeviceModel, text: Seq<char>) -> Decision {
    if d.count > 0 {
        Decision::LockedEcho
    } else if text == d.last {
        Decision::NoChange
    } else {
        Decision::Accepted
    }
}

/// The device after deciding on `m`: an absorbed echo releases one lock, and
/// `m` becomes the last message in every case.
pub open spec fn decided(d: DeviceModel, m: MessageModel) -> DeviceModel {
    DeviceModel {
        count: if d.count > 0 {
            (d.count - 1) as u32
        } else {
            d.count
        },
        last: canonical_text(m),
        context: Some(m),
        ..d
    }
}

/// The topic on which commands for the device at `topic` are published.
pub open spec fn set_topic(topic: Seq<char>) -> Seq<char> {
    topic + "/set"@
}

/// The topic on which the device at `topic` is asked for its state.
pub open spec fn get_topic_of(topic: Seq<char>) -> Seq<char> {
    topic + "/get"@
}

/// A peer device taking `origin`: the device after it, and what it publishes.
pub open spec fn consume_spec(d: DeviceModel, origin: MessageModel) -> (DeviceModel, Result<
    Option<OutboundModel>,
    ConsumeError,
>) {
    match d.context {
        None => (d, Err(ConsumeError::UnreadableState)),
        Some(c) => match convert_spec(origin, d.kind, Some(c)) {
            Err(e) => (d, Err(ConsumeError::Conversion(e))),
            Ok(local) => {
                let after = decided(d, local);
                if decision_spec(d, canonical_text(local)) == Decision::Accepted {
                    (
                        DeviceModel { count: (after.count + 1) as u32, ..after },
                        Ok(
                            Some(
                                OutboundModel {
                                    topic: set_topic(d.topic),
                                    payload: canonical_text(local),
                                },
                            ),
                        ),
                    )
                } else {
                    (after, Ok(None))
                }
            },
        },
    }
}

/// The device after the startup message `payload` arrived on `topic`.
pub open spec fn init_spec(d: DeviceModel, topic: Seq<char>, payload: Seq<char>, decoded: Option<
    MessageModel,
>) -> DeviceModel {
    if topic == d.topic {
        DeviceModel {
            initialized: true,
            last: payload,
            context: match decoded {
                Some(m) => if m.kind() == d.kind {
                    Some(m)
                } else {
                    None
                },
                None => None,
            },
            ..d
        }
    } else {
        d
    }
}

/// Whether `a` and `b` hold the same text.
pub fn same_text(a: &str, b: &String) -> (r: bool)
    ensures
        r == (a@ == b@),
{
    let owned = a.to_owned();
    owned == *b
}

impl Device {
    /// A device at `topic` speaking `kind`, not initialised, with no lock and
    /// an empty last message.
    pub fn new(topic: String, kind: Kind) -> (r: Device)
        ensures
            r@.topic == topic@,
            r@.kind == kind,
            !r@.initialized,
            r@.count == 0,
            r@.last == Seq::<char>::empty(),
            r@.context is None,
    {
        Device {
            topic,
            kind,
            initialized: false,
            lock: DeviceLock::new(String::new()),
            context: None,
        }
    }

    pub fn get_topic(&self) -> (r: String)
        ensures
            r@ == self@.topic,
    {
        self.topic.clone()
    }

    pub fn is_init(&self) -> (r: bool)
        ensures
            r == self@.initialized,
    {
        self.initialized
    }

    /// Whether the device is locked, and whether `candidate` equals the last
    /// message seen.
    pub fn allowed_to_process(&self, candidate: &DeviceMessage) -> (r: (bool, bool))
        ensures
            r.0 == (self@.count > 0),
            r.1 == (canonical_text(candidate@) == self@.last),
    {
        let text = candidate.to_json();
        (self.lock.count_locks > 0, text == self.lock.last_object_message)
    }

    /// Weighs `candidate` against the device's state (see [`decision_spec`])
    /// and records it as the last message.
    pub fn decide(&mut self, candidate: &DeviceMessage) -> (r: Decision)
        ensures
            r == decision_spec(old(self)@, canonical_text(candidate@)),
            final(self)@ == decided(old(self)@, candidate@),
    {
        let (locked, unchanged) = self.allowed_to_process(candidate);
        let r = if locked {
            self.lock.dec();
            Decision::LockedEcho
        } else if unchanged {
            Decision::NoChange
        } else {
            Decision::Accepted
        };
        self.lock.replace(candidate.to_json());
        self.context = Some(candidate.duplicate());
        r
    }

    /// Decides on a message of the device's own kind; true when it is accepted.
    pub fn process_and_continue(&mut self, original_message: &DeviceMessage) -> (r: bool)
        ensures
            r == (decision_spec(old(self)@, canonical_text(original_message@))
                == Decision::Accepted),
            final(self)@ == decided(old(self)@, original_message@),
    {
        let d = self.decide(original_message);
        d == Decision::Accepted
    }

    /// Converts `origin` to the device's kind using its last state, decides
    /// on the result, and when accepted expects its echo and returns the
    /// command to publish (see [`consume_spec`]).
    pub fn consume_message(&mut self, origin: &DeviceMessage) -> (r: Result<
        Option<Outbound>,
        ConsumeError,
    >)
        ensures
            final(self)@ == consume_spec(old(self)@, origin@).0,
            match consume_spec(old(self)@, origin@).1 {
                Ok(Some(o)) => r is Ok && r->Ok_0 is Some && r->Ok_0->Some_0@ == o,
                Ok(None) => r is Ok && r->Ok_0 is None,
                Err(e) => r == Err::<Option<Outbound>, ConsumeError>(e),
            },
    {
        let local = match &self.context {
            None => {
                return Err(ConsumeError::UnreadableState);
            },
            Some(c) => match convert(origin, self.kind, Some(c)) {
                Err(e) => {
                    return Err(ConsumeError::Conversion(e));
                },
                Ok(local) => local,
            },
        };
        let d = self.decide(&local);
        if d == Decision::Accepted {
            self.lock.inc();
            let mut topic = self.topic.clone();
            topic.append("/set");
            Ok(Some(Outbound { topic, payload: local.to_json() }))
        } else {
            Ok(None)
        }
    }

    /// Startup: when `topic` is the device's own, the device is ready and
    /// `payload` is its last message; `decoded` is kept as its state when it
    /// is of the device's kind.
    pub fn init(&mut self, topic: &str, payload: &str, decoded: Option<DeviceMessage>)
        ensures
            final(self)@ == init_spec(
                old(self)@,
                topic@,
                payload@,
                match decoded {
                    Some(m) => Some(m@),
                    None => None,
                },
            ),
    {
        if same_text(topic, &self.topic) {
            self.initialized = true;
            self.lock.replace(payload.to_owned());
            self.context = match decoded {
                Some(m) => if m.kind() == self.kind {
                    Some(m)
                } else {
                    None
                },
                None => None,
            };
        }
    }

    /// The request body that asks the device for its current state.
    pub fn trigger_info(&self) -> (r: String)
        ensures
            r@ == trigger_text(self@.kind),
    {
        match self.kind {
            Kind::Switch => String::from_str("{\"state\":\"\"}"),
            _ => String::from_str("{\"color\":{\"x\":\"\",\"y\":\"\"}}"),
        }
    }
}

/// The state request for each kind.
pub open spec fn trigger_text(k: Kind) -> Seq<char> {
    match k {
        Kind::Switch => "{\"state\":\"\"}"@,
        _ => "{\"color\":{\"x\":\"\",\"y\":\"\"}}"@,
    }
}

} // verus!
