use vstd::prelude::*;
use crate::device::Device;
use crate::devices::{
    topic_of,
    HallLampDevice,
    KitchenInterDimDevice,
    KitchenLampDevice,
    KitchenSwitchDevice,
    HALL_LAMP,
    KITCHEN_INTER_DIM,
    KITCHEN_LAMP,
    KITCHEN_SWITCH,
};
use crate::loops::{HardLoop, KITCHEN_LOOP, KITCHEN_LOOP_2};
use crate::message::Kind;
use crate::registry::Registry;

verus! {

/// Position of each device in the table built by [`build_device_repo`].
pub const KITCHEN_SWITCH_INDEX: usize = 0;

pub const KITCHEN_INTER_DIM_INDEX: usize = 1;

pub const KITCHEN_LAMP_INDEX: usize = 2;

pub const HALL_LAMP_INDEX: usize = 3;

/// The table of all devices, fresh: none ready, none locked.
pub fn build_device_repo() -> (r: Vec<Device>)
    ensures
        r.len() == 4,
        r@[KITCHEN_SWITCH_INDEX as int]@.topic == topic_of(KITCHEN_SWITCH@),
        r@[KITCHEN_SWITCH_INDEX as int]@.kind == Kind::Switch,
        r@[KITCHEN_INTER_DIM_INDEX as int]@.topic == topic_of(KITCHEN_INTER_DIM@),
        r@[KITCHEN_INTER_DIM_INDEX as int]@.kind == Kind::Dimmer,
        r@[KITCHEN_LAMP_INDEX as int]@.topic == topic_of(KITCHEN_LAMP@),
        r@[KITCHEN_LAMP_INDEX as int]@.kind == Kind::Lamp,
        r@[HALL_LAMP_INDEX as int]@.topic == topic_of(HALL_LAMP@),
        r@[HALL_LAMP_INDEX as int]@.kind == Kind::Lamp,
        forall|i: int|
            0 <= i < 4 ==> !(#[trigger] r@[i])@.initialized && r@[i]@.count == 0 && r@[i]@.last
                == Seq::<char>::empty() && r@[i]@.context is None,
{
    let mut r: Vec<Device> = Vec::new();
    r.push(KitchenSwitchDevice::new());
    r.push(KitchenInterDimDevice::new());
    r.push(KitchenLampDevice::new());
    r.push(HallLampDevice::new());
    r
}

/// The state topics to subscribe to.
pub fn device_to_listen(devices: &Vec<Device>) -> (r: Vec<String>)
    requires
        devices.len() == 4,
    ensures
        r.len() == 4,
        r@[0]@ == devices@[KITCHEN_INTER_DIM_INDEX as int]@.topic,
        r@[1]@ == devices@[KITCHEN_LAMP_INDEX as int]@.topic,
        r@[2]@ == devices@[HALL_LAMP_INDEX as int]@.topic,
        r@[3]@ == devices@[KITCHEN_SWITCH_INDEX as int]@.topic,
{
    let mut r: Vec<String> = Vec::new();
    r.push(devices[KITCHEN_INTER_DIM_INDEX].get_topic());
    r.push(devices[KITCHEN_LAMP_INDEX].get_topic());
    r.push(devices[HALL_LAMP_INDEX].get_topic());
    r.push(devices[KITCHEN_SWITCH_INDEX].get_topic());
    r
}

/// The groups: the dimmer and the switch each drive both lamps.
pub fn build_loops() -> (r: Vec<HardLoop>)
    ensures
        r.len() == 2,
        r@[0].name@ == KITCHEN_LOOP@,
        r@[0].devices@ == seq![KITCHEN_INTER_DIM_INDEX, KITCHEN_LAMP_INDEX, HALL_LAMP_INDEX],
        r@[1].name@ == KITCHEN_LOOP_2@,
        r@[1].devices@ == seq![KITCHEN_SWITCH_INDEX, KITCHEN_LAMP_INDEX, HALL_LAMP_INDEX],
{
    let mut first: Vec<usize> = Vec::new();
    first.push(KITCHEN_INTER_DIM_INDEX);
    first.push(KITCHEN_LAMP_INDEX);
    first.push(HALL_LAMP_INDEX);
    let mut second: Vec<usize> = Vec::new();
    second.push(KITCHEN_SWITCH_INDEX);
    second.push(KITCHEN_LAMP_INDEX);
    second.push(HALL_LAMP_INDEX);
    let mut r: Vec<HardLoop> = Vec::new();
    r.push(HardLoop::new(String::from_str(KITCHEN_LOOP), first));
    r.push(HardLoop::new(String::from_str(KITCHEN_LOOP_2), second));
    assert(r@[0].devices@ =~= seq![KITCHEN_INTER_DIM_INDEX, KITCHEN_LAMP_INDEX, HALL_LAMP_INDEX]);
    assert(r@[1].devices@ =~= seq![KITCHEN_SWITCH_INDEX, KITCHEN_LAMP_INDEX, HALL_LAMP_INDEX]);
    r
}

/// The devices whose state is fetched at startup.
pub fn build_init_list() -> (r: Vec<usize>)
    ensures
        r@ == seq![KITCHEN_LAMP_INDEX, HALL_LAMP_INDEX],
{
    let mut r: Vec<usize> = Vec::new();
    r.push(KITCHEN_LAMP_INDEX);
    r.push(HALL_LAMP_INDEX);
    assert(r@ =~= seq![KITCHEN_LAMP_INDEX, HALL_LAMP_INDEX]);
    r
}

impl Registry {
    /// The registry of the standard devices and groups.
    pub fn standard() -> (r: Registry)
        ensures
            r.wf(),
            r.devices.len() == 4,
            r.loops.len() == 2,
    {
        let devices = build_device_repo();
        let loops = build_loops();
        let r = Registry { devices, loops };
        assert(r.loops@[0].members_below(4));
        assert(r.loops@[1].members_below(4));
        r
    }
}

} // verus!
