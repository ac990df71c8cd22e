use vstd::prelude::*;

verus! {

/// The four message kinds a device can speak.
#[derive(Debug, Clone, Copy, PartialEq, Eq, Structural)]
pub enum Kind {
    Lamp,
    Switch,
    Dimmer,
    Sensor,
}

/// Why a message could not be converted to another kind.
#[derive(Debug, Clone, Copy, PartialEq, Eq, Structural)]
pub enum ConvertError {
    /// The conversion takes fields from the target device's previous state,
    /// and that state is absent or of another kind.
    MissingContext,
    /// No conversion is defined between the two kinds.
    NoConversion,
}

/// State of a colour-temperature lamp.
#[derive(Debug)]
pub struct LampRGB {
    pub color_temp: u16,
    pub brightness: u16,
    pub state: String,
}

/// State of an on/off switch.
#[derive(Debug)]
pub struct InterSwitch {
    pub state: String,
}

/// State of a dimmer switch.
#[derive(Debug)]
pub struct InterDim {
    pub brightness: u16,
    pub state: String,
}

/// Reading of a temperature sensor. The fractional quantities are kept as
/// the JSON number text that carried them.
#[derive(Debug)]
pub struct TempSensor {
    pub battery: String,
    pub humidity: String,
    pub linkquality: u32,
    pub temperature: String,
    pub voltage: u32,
}

/// A message of one of the four kinds.
#[derive(Debug)]
pub enum DeviceMessage {
    LampRGB(LampRGB),
    InterSwitch(InterSwitch),
    InterDim(InterDim),
    TempSensor(TempSensor),
}

/// Mathematical value of a [`DeviceMessage`].
pub enum MessageModel {
    Lamp { color_temp: u16, brightness: u16, state: Seq<char> },
    Switch { state: Seq<char> },
    Dimmer { brightness: u16, state: Seq<char> },
    Sensor {
        battery: Seq<char>,
        humidity: Seq<char>,
        linkquality: u32,
        temperature: Seq<char>,
        voltage: u32,
    },
}

impl MessageModel {
    pub open spec fn kind(self) -> Kind {
        match self {
            MessageModel::Lamp { .. } => Kind::Lamp,
            MessageModel::Switch { .. } => Kind::Switch,
            MessageModel::Dimmer { .. } => Kind::Dimmer,
            MessageModel::Sensor { .. } => Kind::Sensor,
        }
    }
}

impl View for DeviceMessage {
    type V = MessageModel;

    open spec fn view(&self) -> MessageModel {
        match self {
            DeviceMessage::LampRGB(m) => MessageModel::Lamp {
                color_temp: m.color_temp,
                brightness: m.brightness,
                state: m.state@,
            },
            DeviceMessage::InterSwitch(m) => MessageModel::Switch { state: m.state@ },
            DeviceMessage::InterDim(m) => MessageModel::Dimmer {
                brightness: m.brightness,
                state: m.state@,
            },
            DeviceMessage::TempSensor(m) => MessageModel::Sensor {
                battery: m.battery@,
                humidity: m.humidity@,
                linkquality: m.linkquality,
                temperature: m.temperature@,
                voltage: m.voltage,
            },
        }
    }
}

/// The conversion matrix: `source` rewritten as a message of kind `target`,
/// with the fields that `source` lacks taken from `context`, the target
/// device's previous state.
pub open spec fn convert_spec(source: MessageModel, target: Kind, context: Option<MessageModel>) -> Result<
    MessageModel,
    ConvertError,
> {
    if source.kind() == target {
        Ok(source)
    } else {
        match (source, target) {
            (MessageModel::Lamp { brightness, state, .. }, Kind::Switch) => Ok(
                MessageModel::Switch { state },
            ),
            (MessageModel::Lamp { brightness, state, .. }, Kind::Dimmer) => Ok(
                MessageModel::Dimmer { brightness, state },
            ),
            (MessageModel::Switch { state }, Kind::Lamp) => match context {
                Some(MessageModel::Lamp { color_temp, brightness, .. }) => Ok(
                    MessageModel::Lamp { color_temp, brightness, state },
                ),
                _ => Err(ConvertError::MissingContext),
            },
            (MessageModel::Switch { state }, Kind::Dimmer) => match context {
                Some(MessageModel::Dimmer { brightness, .. }) => Ok(
                    MessageModel::Dimmer { brightness, state },
                ),
                _ => Err(ConvertError::MissingContext),
            },
            (MessageModel::Dimmer { brightness, state }, Kind::Lamp) => match context {
                Some(MessageModel::Lamp { color_temp, .. }) => Ok(
                    MessageModel::Lamp { color_temp, brightness, state },
                ),
                _ => Err(ConvertError::MissingContext),
            },
            (MessageModel::Dimmer { state, .. }, Kind::Switch) => Ok(MessageModel::Switch { state }),
            _ => Err(ConvertError::NoConversion),
        }
    }
}

/// Value of an optional message.
pub open spec fn model_of(m: Option<&DeviceMessage>) -> Option<MessageModel> {
    match m {
        Some(x) => Some(x@),
        None => None,
    }
}

fn copy_text(s: &String) -> (r: String)
    ensures
        r@ == s@,
{
    s.clone()
}

impl DeviceMessage {
    pub fn kind(&self) -> (k: Kind)
        ensures
            k == self@.kind(),
    {
        match self {
            DeviceMessage::LampRGB(_) => Kind::Lamp,
            DeviceMessage::InterSwitch(_) => Kind::Switch,
            DeviceMessage::InterDim(_) => Kind::Dimmer,
            DeviceMessage::TempSensor(_) => Kind::Sensor,
        }
    }

    /// A message with the same value.
    pub fn duplicate(&self) -> (r: DeviceMessage)
        ensures
            r@ == self@,
    {
        match self {
            DeviceMessage::LampRGB(m) => DeviceMessage::LampRGB(
                LampRGB {
                    color_temp: m.color_temp,
                    brightness: m.brightness,
                    state: copy_text(&m.state),
                },
            ),
            DeviceMessage::InterSwitch(m) => DeviceMessage::InterSwitch(
                InterSwitch { state: copy_text(&m.state) },
            ),
            DeviceMessage::InterDim(m) => DeviceMessage::InterDim(
                InterDim { brightness: m.brightness, state: copy_text(&m.state) },
            ),
            DeviceMessage::TempSensor(m) => DeviceMessage::TempSensor(
                TempSensor {
                    battery: copy_text(&m.battery),
                    humidity: copy_text(&m.humidity),
                    linkquality: m.linkquality,
                    temperature: copy_text(&m.temperature),
                    voltage: m.voltage,
                },
            ),
        }
    }
}

impl LampRGB {
    /// A lamp at colour temperature 270 and brightness 40, with no power state.
    pub fn new() -> (r: LampRGB)
        ensures
            r.color_temp == 270,
            r.brightness == 40,
            r.state@ == Seq::<char>::empty(),
    {
        LampRGB { color_temp: 270, brightness: 40, state: String::new() }
    }
}

impl InterSwitch {
    /// A switch that is off.
    pub fn new() -> (r: InterSwitch)
        ensures
            r.state@ == "OFF"@,
    {
        InterSwitch { state: String::from_str("OFF") }
    }
}

impl InterDim {
    /// A dimmer that is off, at brightness 0.
    pub fn new() -> (r: InterDim)
        ensures
            r.brightness == 0,
            r.state@ == "OFF"@,
    {
        InterDim { brightness: 0, state: String::from_str("OFF") }
    }
}

impl TempSensor {
    /// A reading of zeros.
    pub fn new() -> (r: TempSensor)
        ensures
            r.battery@ == "0.0"@,
            r.humidity@ == "0.0"@,
            r.linkquality == 0,
            r.temperature@ == "0.0"@,
            r.voltage == 0,
    {
        TempSensor {
            battery: String::from_str("0.0"),
            humidity: String::from_str("0.0"),
            linkquality: 0,
            temperature: String::from_str("0.0"),
            voltage: 0,
        }
    }
}

/// Rewrites `source` as a message of kind `target`, taking the fields that
/// `source` lacks from `context` (see [`convert_spec`]).
pub fn convert(source: &DeviceMessage, target: Kind, context: Option<&DeviceMessage>) -> (r: Result<
    DeviceMessage,
    ConvertError,
>)
    ensures
        match convert_spec(source@, target, model_of(context)) {
            Ok(m) => r is Ok && r->Ok_0@ == m,
            Err(e) => r == Err::<DeviceMessage, ConvertError>(e),
        },
{
    if source.kind() == target {
        return Ok(source.duplicate());
    }
    match (source, target) {
        (DeviceMessage::LampRGB(m), Kind::Switch) => Ok(
            DeviceMessage::InterSwitch(InterSwitch { state: copy_text(&m.state) }),
        ),
        (DeviceMessage::LampRGB(m), Kind::Dimmer) => Ok(
            DeviceMessage::InterDim(InterDim { brightness: m.brightness, state: copy_text(&m.state) }),
        ),
        (DeviceMessage::InterSwitch(m), Kind::Lamp) => match context {
            Some(DeviceMessage::LampRGB(c)) => Ok(
                DeviceMessage::LampRGB(
                    LampRGB {
                        color_temp: c.color_temp,
                        brightness: c.brightness,
                        state: copy_text(&m.state),
                    },
                ),
            ),
            _ => Err(ConvertError::MissingContext),
        },
        (DeviceMessage::InterSwitch(m), Kind::Dimmer) => match context {
            Some(DeviceMessage::InterDim(c)) => Ok(
                DeviceMessage::InterDim(
                    InterDim { brightness: c.brightness, state: copy_text(&m.state) },
                ),
            ),
            _ => Err(ConvertError::MissingContext),
        },
        (DeviceMessage::InterDim(m), Kind::Lamp) => match context {
            Some(DeviceMessage::LampRGB(c)) => Ok(
                DeviceMessage::LampRGB(
                    LampRGB {
                        color_temp: c.color_temp,
                        brightness: m.brightness,
                        state: copy_text(&m.state),
                    },
                ),
            ),
            _ => Err(ConvertError::MissingContext),
        },
        (DeviceMessage::InterDim(m), Kind::Switch) => Ok(
            DeviceMessage::InterSwitch(InterSwitch { state: copy_text(&m.state) }),
        ),
        _ => Err(ConvertError::NoConversion),
    }
}

} // verus!
