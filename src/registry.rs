use vstd::prelude::*;
use crate::canonical::canonical_text;
use crate::device::{
    decided,
    decision_spec,
    get_topic_of,
    init_spec,
    same_text,
    trigger_text,
    Decision,
    Device,
    DeviceModel,
    Outbound,
    OutboundModel,
};
use crate::loops::{devices_view, fanout_spec, has_topic, outbound_view, HardLoop};
use crate::message::{DeviceMessage, MessageModel};

verus! {

/// Member lists of a sequence of groups.
pub open spec fn loops_view(v: Seq<HardLoop>) -> Seq<Seq<usize>> {
    v.map_values(|l: HardLoop| l.devices@)
}

/// The first index of `devs` whose device is at `topic`.
pub open spec fn find_topic(devs: Seq<DeviceModel>, topic: Seq<char>) -> Option<int>
    decreases devs.len(),
{
    if devs.len() == 0 {
        None
    } else {
        match find_topic(devs.drop_last(), topic) {
            Some(i) => Some(i),
            None => if devs.last().topic == topic {
                Some(devs.len() - 1)
            } else {
                None
            },
        }
    }
}

/// Handling of `msg`, which arrived on `topic` for the device at `src`, group
/// after group: in each group that holds `topic`, the source device decides
/// on the message and, when it accepts, the group fans it out.
pub open spec fn dispatch_spec(
    devs: Seq<DeviceModel>,
    loops: Seq<Seq<usize>>,
    src: int,
    topic: Seq<char>,
    msg: MessageModel,
) -> (Seq<DeviceModel>, Seq<OutboundModel>)
    decreases loops.len(),
{
    if loops.len() == 0 {
        (devs, Seq::empty())
    } else {
        let prev = dispatch_spec(devs, loops.drop_last(), src, topic, msg);
        let members = loops.last();
        if has_topic(prev.0, members, topic) {
            let accepted = decision_spec(prev.0[src], canonical_text(msg)) == Decision::Accepted;
            let after = prev.0.update(src, decided(prev.0[src], msg));
            if accepted {
                let f = fanout_spec(after, members, topic, msg);
                (f.0, prev.1 + f.1)
            } else {
                (after, prev.1)
            }
        } else {
            prev
        }
    }
}

/// A publish on `topic` whose payload decoded (for the kind of the device at
/// `topic`) to `decoded`, or did not decode: the devices after it, and what
/// is published in answer.
pub open spec fn publish_spec(
    devs: Seq<DeviceModel>,
    loops: Seq<Seq<usize>>,
    topic: Seq<char>,
    decoded: Option<MessageModel>,
) -> (Seq<DeviceModel>, Seq<OutboundModel>) {
    match (find_topic(devs, topic), decoded) {
        (Some(src), Some(msg)) => if msg.kind() == devs[src].kind {
            dispatch_spec(devs, loops, src, topic, msg)
        } else {
            (devs, Seq::empty())
        },
        _ => (devs, Seq::empty()),
    }
}

/// The devices after the startup message `payload` on `topic` reached each
/// device of `list` in turn.
pub open spec fn init_all_spec(
    devs: Seq<DeviceModel>,
    list: Seq<usize>,
    topic: Seq<char>,
    payload: Seq<char>,
    decoded: Option<MessageModel>,
) -> Seq<DeviceModel>
    decreases list.len(),
{
    if list.len() == 0 {
        devs
    } else {
        let prev = init_all_spec(devs, list.drop_last(), topic, payload, decoded);
        let i = list.last() as int;
        if i < prev.len() {
            prev.update(i, init_spec(prev[i], topic, payload, decoded))
        } else {
            prev
        }
    }
}

pub open spec fn option_model(m: Option<DeviceMessage>) -> Option<MessageModel> {
    match m {
        Some(x) => Some(x@),
        None => None,
    }
}

fn duplicate_option(m: &Option<DeviceMessage>) -> (r: Option<DeviceMessage>)
    ensures
        option_model(r) == option_model(*m),
{
    match m {
        Some(x) => Some(x.duplicate()),
        None => None,
    }
}

/// The devices and the groups they are kept consistent in.
#[derive(Debug)]
pub struct Registry {
    pub devices: Vec<Device>,
    pub loops: Vec<HardLoop>,
}

impl Registry {
    /// Every group member indexes a device.
    pub open spec fn wf(&self) -> bool {
        forall|l: int|
            0 <= l < self.loops.len() ==> #[trigger] self.loops@[l].members_below(
                self.devices.len() as int,
            )
    }

    /// The registry of `devices` and `loops`, or `None` when a group names a
    /// device that is not there.
    pub fn new(devices: Vec<Device>, loops: Vec<HardLoop>) -> (r: Option<Registry>)
        ensures
            r is Some <==> (forall|l: int, k: int|
                0 <= l < loops.len() && 0 <= k < loops@[l].devices.len()
                    ==> #[trigger] loops@[l].devices@[k] < devices.len()),
            r matches Some(reg) ==> reg.wf() && reg.devices@ == devices@ && reg.loops@
                == loops@,
    {
        let mut l: usize = 0;
        while l < loops.len()
            invariant
                l <= loops.len(),
                forall|a: int|
                    0 <= a < l ==> #[trigger] loops@[a].members_below(devices.len() as int),
            decreases loops.len() - l,
        {
            let mut k: usize = 0;
            while k < loops[l].devices.len()
                invariant
                    l < loops.len(),
                    k <= loops@[l as int].devices.len(),
                    forall|b: int|
                        0 <= b < k ==> #[trigger] loops@[l as int].devices@[b] < devices.len(),
                decreases loops@[l as int].devices.len() - k,
            {
                if loops[l].devices[k] >= devices.len() {
                    return None;
                }
                k = k + 1;
            }
            l = l + 1;
        }
        assert forall|l: int, k: int|
            0 <= l < loops.len() && 0 <= k < loops@[l].devices.len() implies #[trigger] loops@[l].devices@[k]
                < devices.len() by {
            assert(loops@[l].members_below(devices.len() as int));
        }
        Some(Registry { devices, loops })
    }

    /// The index of the first device at `topic`.
    pub fn device_for(&self, topic: &str) -> (r: Option<usize>)
        ensures
            match find_topic(devices_view(self.devices@), topic@) {
                Some(i) => r == Some(i as usize),
                None => r is None,
            },
            r matches Some(i) ==> i < self.devices.len() && self.devices@[i as int]@.topic == topic@,
    {
        let ghost all = devices_view(self.devices@);
        let mut i: usize = 0;
        while i < self.devices.len()
            invariant
                i <= self.devices.len(),
                all == devices_view(self.devices@),
                find_topic(all.take(i as int), topic@) is None,
            decreases self.devices.len() - i,
        {
            assert(all.take(i + 1).drop_last() =~= all.take(i as int));
            if same_text(topic, &self.devices[i].topic) {
                proof {
                    assert(find_topic(all.take(i + 1), topic@) == Some(i as int));
                    lemma_find_topic_prefix(all, i + 1, topic@);
                    lemma_find_topic_found(all, topic@);
                }
                return Some(i);
            }
            i = i + 1;
        }
        assert(all.take(i as int) =~= all);
        None
    }

    /// Handles a publish on `topic` whose payload decoded to `decoded` for the
    /// kind of the device at `topic` (`None` when it did not decode). Returns
    /// the commands to publish, in order (see [`publish_spec`]).
    pub fn process_publish(&mut self, topic: &str, decoded: Option<DeviceMessage>) -> (r: Vec<
        Outbound,
    >)
        requires
            old(self).wf(),
        ensures
            final(self).wf(),
            final(self).loops@ == old(self).loops@,
            devices_view(final(self).devices@) == publish_spec(
                devices_view(old(self).devices@),
                loops_view(old(self).loops@),
                topic@,
                option_model(decoded),
            ).0,
            outbound_view(r@) == publish_spec(
                devices_view(old(self).devices@),
                loops_view(old(self).loops@),
                topic@,
                option_model(decoded),
            ).1,
    {
        let src = match self.device_for(topic) {
            None => {
                return Vec::new();
            },
            Some(i) => i,
        };
        let msg = match decoded {
            None => {
                return Vec::new();
            },
            Some(m) => m,
        };
        let ghost start = devices_view(self.devices@);
        assert(option_model(decoded) == Some(msg@));
        proof {
            lemma_find_topic_found(start, topic@);
        }
        assert(find_topic(start, topic@) == Some(src as int));
        assert(start[src as int].kind == self.devices@[src as int].kind);
        if msg.kind() != self.devices[src].kind {
            return Vec::new();
        }
        let ghost lv = loops_view(self.loops@);
        let mut out: Vec<Outbound> = Vec::new();
        let mut l: usize = 0;
        while l < self.loops.len()
            invariant
                l <= self.loops.len(),
                self.wf(),
                self.loops@ == old(self).loops@,
                self.devices.len() == old(self).devices.len(),
                src < self.devices.len(),
                lv == loops_view(self.loops@),
                start == devices_view(old(self).devices@),
                devices_view(self.devices@) == dispatch_spec(
                    start,
                    lv.take(l as int),
                    src as int,
                    topic@,
                    msg@,
                ).0,
                outbound_view(out@) == dispatch_spec(
                    start,
                    lv.take(l as int),
                    src as int,
                    topic@,
                    msg@,
                ).1,
            decreases self.loops.len() - l,
        {
            assert(lv.take(l + 1).drop_last() =~= lv.take(l as int));
            assert(lv.take(l + 1).last() == self.loops@[l as int].devices@);
            let ghost before_devs = devices_view(self.devices@);
            let ghost before_out = outbound_view(out@);
            assert(self.loops@[l as int].members_below(self.devices.len() as int));
            if self.loops[l].find_device_by_topic(topic, &self.devices).is_some() {
                let accepted = self.devices[src].process_and_continue(&msg);
                let ghost after = devices_view(self.devices@);
                assert(after =~= before_devs.update(
                    src as int,
                    decided(before_devs[src as int], msg@),
                ));
                if accepted {
                    let mut sent = self.loops[l].loop_devices(topic, &msg, &mut self.devices);
                    out.append(&mut sent);
                    assert(outbound_view(out@) =~= before_out + fanout_spec(
                        after,
                        lv.take(l + 1).last(),
                        topic@,
                        msg@,
                    ).1);
                }
            }
            l = l + 1;
        }
        assert(lv.take(l as int) =~= lv);
        assert(publish_spec(start, lv, topic@, option_model(decoded)) == dispatch_spec(
            start,
            lv,
            src as int,
            topic@,
            msg@,
        ));
        out
    }

    /// The state requests to publish at startup, one per device of `list`.
    pub fn init_requests(&self, list: &Vec<usize>) -> (r: Vec<Outbound>)
        requires
            forall|k: int| 0 <= k < list.len() ==> #[trigger] list@[k] < self.devices.len(),
        ensures
            r.len() == list.len(),
            forall|k: int|
                0 <= k < list.len() ==> #[trigger] r@[k]@ == (OutboundModel {
                    topic: get_topic_of(self.devices@[list@[k] as int]@.topic),
                    payload: trigger_text(self.devices@[list@[k] as int]@.kind),
                }),
    {
        let mut out: Vec<Outbound> = Vec::new();
        let mut k: usize = 0;
        while k < list.len()
            invariant
                k <= list.len(),
                out.len() == k,
                forall|k: int| 0 <= k < list.len() ==> #[trigger] list@[k] < self.devices.len(),
                forall|j: int|
                    0 <= j < k ==> #[trigger] out@[j]@ == (OutboundModel {
                        topic: get_topic_of(self.devices@[list@[j] as int]@.topic),
                        payload: trigger_text(self.devices@[list@[j] as int]@.kind),
                    }),
            decreases list.len() - k,
        {
            let dev = &self.devices[list[k]];
            let mut topic = dev.get_topic();
            topic.append("/get");
            out.push(Outbound { topic, payload: dev.trigger_info() });
            k = k + 1;
        }
        out
    }

    /// Startup: hands the message `payload` on `topic`, decoded to `decoded`,
    /// to each device of `list`; returns whether all of them are now ready.
    pub fn process_init_message(
        &mut self,
        list: &Vec<usize>,
        topic: &str,
        payload: &str,
        decoded: Option<DeviceMessage>,
    ) -> (r: bool)
        requires
            old(self).wf(),
        ensures
            final(self).wf(),
            final(self).loops@ == old(self).loops@,
            devices_view(final(self).devices@) == init_all_spec(
                devices_view(old(self).devices@),
                list@,
                topic@,
                payload@,
                option_model(decoded),
            ),
            r == (forall|k: int|
                0 <= k < list.len() ==> #[trigger] list@[k] < final(self).devices.len()
                    && final(self).devices@[list@[k] as int]@.initialized),
    {
        let ghost start = devices_view(self.devices@);
        let mut k: usize = 0;
        while k < list.len()
            invariant
                k <= list.len(),
                self.wf(),
                self.loops@ == old(self).loops@,
                self.devices.len() == old(self).devices.len(),
                start == devices_view(old(self).devices@),
                devices_view(self.devices@) == init_all_spec(
                    start,
                    list@.take(k as int),
                    topic@,
                    payload@,
                    option_model(decoded),
                ),
            decreases list.len() - k,
        {
            assert(list@.take(k + 1).drop_last() =~= list@.take(k as int));
            let i = list[k];
            if i < self.devices.len() {
                let ghost before = devices_view(self.devices@);
                self.devices[i].init(topic, payload, duplicate_option(&decoded));
                assert(devices_view(self.devices@) =~= before.update(
                    i as int,
                    init_spec(before[i as int], topic@, payload@, option_model(decoded)),
                ));
            }
            k = k + 1;
        }
        assert(list@.take(k as int) =~= list@);
        self.all_initialized(list)
    }

    /// Whether every device of `list` is ready.
    pub fn all_initialized(&self, list: &Vec<usize>) -> (r: bool)
        ensures
            r == (forall|k: int|
                0 <= k < list.len() ==> #[trigger] list@[k] < self.devices.len()
                    && self.devices@[list@[k] as int]@.initialized),
    {
        let mut k: usize = 0;
        while k < list.len()
            invariant
                k <= list.len(),
                forall|j: int|
                    0 <= j < k ==> #[trigger] list@[j] < self.devices.len()
                        && self.devices@[list@[j] as int]@.initialized,
            decreases list.len() - k,
        {
            let i = list[k];
            if i >= self.devices.len() || !self.devices[i].is_init() {
                return false;
            }
            k = k + 1;
        }
        true
    }
}

/// A match is an index of the sequence whose device is at the topic.
pub proof fn lemma_find_topic_found(devs: Seq<DeviceModel>, topic: Seq<char>)
    ensures
        find_topic(devs, topic) matches Some(i) ==> 0 <= i < devs.len() && devs[i].topic == topic,
    decreases devs.len(),
{
    if devs.len() > 0 {
        lemma_find_topic_found(devs.drop_last(), topic);
    }
}

/// The first match in a prefix is the first match in the whole sequence.
pub proof fn lemma_find_topic_prefix(devs: Seq<DeviceModel>, n: int, topic: Seq<char>)
    requires
        0 <= n <= devs.len(),
        find_topic(devs.take(n), topic) is Some,
    ensures
        find_topic(devs, topic) == find_topic(devs.take(n), topic),
    decreases devs.len() - n,
{
    if n < devs.len() {
        assert(devs.take(n + 1).drop_last() =~= devs.take(n));
        lemma_find_topic_prefix(devs, n + 1, topic);
    } else {
        assert(devs.take(n) =~= devs);
    }
}

} // verus!
