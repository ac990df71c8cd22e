use vstd::prelude::*;
use crate::device::{consume_spec, same_text, Device, DeviceModel, Outbound, OutboundModel};
use crate::message::{DeviceMessage, MessageModel};

verus! {

pub const KITCHEN_LOOP: &'static str = "KITCHEN_LOOP";

pub const KITCHEN_LOOP_2: &'static str = "KITCHEN_LOOP_2";

/// Value of a sequence of devices.
pub open spec fn devices_view(v: Seq<Device>) -> Seq<DeviceModel> {
    v.map_values(|d: Device| d@)
}

/// Value of a sequence of outbound messages.
pub open spec fn outbound_view(v: Seq<Outbound>) -> Seq<OutboundModel> {
    v.map_values(|o: Outbound| o@)
}

/// Whether one of `members` is a device of `devs` at `topic`.
pub open spec fn has_topic(devs: Seq<DeviceModel>, members: Seq<usize>, topic: Seq<char>) -> bool {
    exists|k: int|
        0 <= k < members.len() && members[k] < devs.len() && #[trigger] devs[members[k] as int].topic
            == topic
}

/// Fan-out of `origin`, which arrived on `topic`, to `members` in order: each
/// member not at `topic` consumes it. The devices after it, and what they
/// publish, in order.
pub open spec fn fanout_spec(
    devs: Seq<DeviceModel>,
    members: Seq<usize>,
    topic: Seq<char>,
    origin: MessageModel,
) -> (Seq<DeviceModel>, Seq<OutboundModel>)
    decreases members.len(),
{
    if members.len() == 0 {
        (devs, Seq::empty())
    } else {
        let prev = fanout_spec(devs, members.drop_last(), topic, origin);
        let m = members.last() as int;
        if m < prev.0.len() && prev.0[m].topic != topic {
            let step = consume_spec(prev.0[m], origin);
            (
                prev.0.update(m, step.0),
                match step.1 {
                    Ok(Some(o)) => prev.1.push(o),
                    _ => prev.1,
                },
            )
        } else {
            prev
        }
    }
}

/// A group of devices whose states are kept consistent with each other.
/// Members are indices into the device table.
#[derive(Debug)]
pub struct HardLoop {
    pub name: String,
    pub devices: Vec<usize>,
}

impl HardLoop {
    pub fn new(name: String, devices: Vec<usize>) -> (r: HardLoop)
        ensures
            r.name@ == name@,
            r.devices@ == devices@,
    {
        HardLoop { name, devices }
    }

    pub fn get_name(&self) -> (r: String)
        ensures
            r@ == self.name@,
    {
        self.name.clone()
    }

    /// Every member indexes a device of a table of `n` devices.
    pub open spec fn members_below(&self, n: int) -> bool {
        forall|k: int| 0 <= k < self.devices.len() ==> #[trigger] self.devices@[k] < n
    }

    /// A member of the group at `topic`.
    pub fn find_device_by_topic(&self, topic: &str, devices: &Vec<Device>) -> (r: Option<usize>)
        requires
            self.members_below(devices.len() as int),
        ensures
            r is Some <==> has_topic(devices_view(devices@), self.devices@, topic@),
            r matches Some(i) ==> i < devices.len() && devices@[i as int]@.topic == topic@ && (
            exists|k: int| 0 <= k < self.devices.len() && self.devices@[k] == i),
    {
        let mut k: usize = 0;
        while k < self.devices.len()
            invariant
                k <= self.devices.len(),
                self.members_below(devices.len() as int),
                forall|j: int|
                    0 <= j < k ==> #[trigger] devices@[self.devices@[j] as int]@.topic != topic@,
            decreases self.devices.len() - k,
        {
            let i = self.devices[k];
            if same_text(topic, &devices[i].topic) {
                assert(devices_view(devices@)[self.devices@[k as int] as int].topic == topic@);
                return Some(i);
            }
            k = k + 1;
        }
        proof {
            if has_topic(devices_view(devices@), self.devices@, topic@) {
                let k = choose|k: int|
                    0 <= k < self.devices@.len() && self.devices@[k] < devices_view(devices@).len()
                        && #[trigger] devices_view(devices@)[self.devices@[k] as int].topic
                        == topic@;
                assert(devices@[self.devices@[k] as int]@.topic != topic@);
            }
        }
        None
    }

    /// Fans `original_message`, which arrived on `topic`, out to every other
    /// member in declared order (see [`fanout_spec`]); returns the commands to
    /// publish, in order.
    pub fn loop_devices(
        &self,
        topic: &str,
        original_message: &DeviceMessage,
        devices: &mut Vec<Device>,
    ) -> (r: Vec<Outbound>)
        requires
            self.members_below(old(devices).len() as int),
        ensures
            final(devices).len() == old(devices).len(),
            devices_view(final(devices)@) == fanout_spec(
                devices_view(old(devices)@),
                self.devices@,
                topic@,
                original_message@,
            ).0,
            outbound_view(r@) == fanout_spec(
                devices_view(old(devices)@),
                self.devices@,
                topic@,
                original_message@,
            ).1,
    {
        let ghost start = devices_view(devices@);
        let mut out: Vec<Outbound> = Vec::new();
        let mut k: usize = 0;
        while k < self.devices.len()
            invariant
                k <= self.devices.len(),
                devices.len() == old(devices).len(),
                self.members_below(devices.len() as int),
                start == devices_view(old(devices)@),
                devices_view(devices@) == fanout_spec(
                    start,
                    self.devices@.take(k as int),
                    topic@,
                    original_message@,
                ).0,
                outbound_view(out@) == fanout_spec(
                    start,
                    self.devices@.take(k as int),
                    topic@,
                    original_message@,
                ).1,
            decreases self.devices.len() - k,
        {
            let ghost before_devs = devices_view(devices@);
            let ghost before_out = outbound_view(out@);
            assert(self.devices@.take(k + 1).drop_last() =~= self.devices@.take(k as int));
            let i = self.devices[k];
            if !same_text(topic, &devices[i].topic) {
                let res = devices[i].consume_message(original_message);
                match res {
                    Ok(Some(o)) => {
                        out.push(o);
                        assert(outbound_view(out@) =~= before_out.push(o@));
                    },
                    _ => {
                        assert(outbound_view(out@) =~= before_out);
                    },
                }
                assert(devices_view(devices@) =~= before_devs.update(
                    i as int,
                    consume_spec(before_devs[i as int], original_message@).0,
                ));
            }
            k = k + 1;
        }
        assert(self.devices@.take(k as int) =~= self.devices@);
        out
    }
}

/// Fan-out never touches a device at the topic the message came from, and
/// every command it publishes goes to a device at another topic.
pub proof fn lemma_no_self_fanout(
    devs: Seq<DeviceModel>,
    members: Seq<usize>,
    topic: Seq<char>,
    origin: MessageModel,
)
    ensures
        fanout_spec(devs, members, topic, origin).0.len() == devs.len(),
        forall|i: int|
            0 <= i < devs.len() && devs[i].topic == topic ==> #[trigger] fanout_spec(
                devs,
                members,
                topic,
                origin,
            ).0[i] == devs[i],
        forall|i: int|
            0 <= i < devs.len() ==> #[trigger] fanout_spec(devs, members, topic, origin).0[i].topic
                == devs[i].topic,
        forall|j: int|
            0 <= j < fanout_spec(devs, members, topic, origin).1.len() ==> exists|i: int|
                0 <= i < devs.len() && devs[i].topic != topic && #[trigger] fanout_spec(
                    devs,
                    members,
                    topic,
                    origin,
                ).1[j].topic == devs[i].topic + "/set"@,
    decreases members.len(),
{
    if members.len() > 0 {
        lemma_no_self_fanout(devs, members.drop_last(), topic, origin);
        let prev = fanout_spec(devs, members.drop_last(), topic, origin);
        let cur = fanout_spec(devs, members, topic, origin);
        assert forall|j: int| 0 <= j < cur.1.len() implies exists|i: int|
            0 <= i < devs.len() && devs[i].topic != topic && #[trigger] cur.1[j].topic
                == devs[i].topic + "/set"@ by {
            if j < prev.1.len() {
                assert(cur.1[j] == prev.1[j]);
            } else {
                let m = members.last() as int;
                assert(prev.0[m].topic == devs[m].topic);
            }
        }
    }
}

} // verus!
