use vstd::prelude::*;
use crate::device::Device;
use crate::message::Kind;

verus! {

/// Namespace under which every device publishes its state.
pub const NAMESPACE: &'static str = "zigbee2mqtt/";

pub const HALL_LAMP: &'static str = "hall_lamp";

pub const KITCHEN_INTER_DIM: &'static str = "kitchen_inter_dim";

pub const KITCHEN_LAMP: &'static str = "kitchen_lamp";

pub const KITCHEN_SWITCH: &'static str = "kitchen_switch";

/// The state topic of the device called `name`.
pub open spec fn topic_of(name: Seq<char>) -> Seq<char> {
    NAMESPACE@ + name
}

fn named_device(name: &str, kind: Kind) -> (r: Device)
    ensures
        r@.topic == topic_of(name@),
        r@.kind == kind,
        !r@.initialized,
        r@.count == 0,
        r@.last == Seq::<char>::empty(),
        r@.context is None,
{
    let topic = String::from_str(NAMESPACE).concat(name);
    Device::new(topic, kind)
}

/// The hall lamp, a colour-temperature lamp.
pub struct HallLampDevice;

impl HallLampDevice {
    pub fn new() -> (r: Device)
        ensures
            r@.topic == topic_of(HALL_LAMP@),
            r@.kind == Kind::Lamp,
            !r@.initialized,
            r@.count == 0,
            r@.last == Seq::<char>::empty(),
            r@.context is None,
    {
        named_device(Self::get_name(), Kind::Lamp)
    }

    pub fn get_name() -> (r: &'static str)
        ensures
            r@ == HALL_LAMP@,
    {
        HALL_LAMP
    }
}

/// The kitchen dimmer switch.
pub struct KitchenInterDimDevice;

impl KitchenInterDimDevice {
    pub fn new() -> (r: Device)
        ensures
            r@.topic == topic_of(KITCHEN_INTER_DIM@),
            r@.kind == Kind::Dimmer,
            !r@.initialized,
            r@.count == 0,
            r@.last == Seq::<char>::empty(),
            r@.context is None,
    {
        named_device(Self::get_name(), Kind::Dimmer)
    }

    pub fn get_name() -> (r: &'static str)
        ensures
            r@ == KITCHEN_INTER_DIM@,
    {
        KITCHEN_INTER_DIM
    }
}

/// The kitchen lamp, a colour-temperature lamp.
pub struct KitchenLampDevice;

impl KitchenLampDevice {
    pub fn new() -> (r: Device)
        ensures
            r@.topic == topic_of(KITCHEN_LAMP@),
            r@.kind == Kind::Lamp,
            !r@.initialized,
            r@.count == 0,
            r@.last == Seq::<char>::empty(),
            r@.context is None,
    {
        named_device(Self::get_name(), Kind::Lamp)
    }

    pub fn get_name() -> (r: &'static str)
        ensures
            r@ == KITCHEN_LAMP@,
    {
        KITCHEN_LAMP
    }
}

/// The kitchen on/off switch.
pub struct KitchenSwitchDevice;

impl KitchenSwitchDevice {
    pub fn new() -> (r: Device)
        ensures
            r@.topic == topic_of(KITCHEN_SWITCH@),
            r@.kind == Kind::Switch,
            !r@.initialized,
            r@.count == 0,
            r@.last == Seq::<char>::empty(),
            r@.context is None,
    {
        named_device(Self::get_name(), Kind::Switch)
    }

    pub fn get_name() -> (r: &'static str)
        ensures
            r@ == KITCHEN_SWITCH@,
    {
        KITCHEN_SWITCH
    }
}

} // verus!
