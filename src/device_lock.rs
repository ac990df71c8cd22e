use vstd::prelude::*;

verus! {

/// Per-device cell: how many echoes of our own publishes are still expected,
/// and the text of the last message seen for the device.
#[derive(Debug)]
pub struct DeviceLock {
    pub count_locks: u32,
    pub last_object_message: String,
}

impl DeviceLock {
    /// A lock that expects no echo, with `last_message` as the last text seen.
    pub fn new(last_message: String) -> (r: DeviceLock)
        ensures
            r.count_locks == 0,
            r.last_object_message@ == last_message@,
    {
        DeviceLock { count_locks: 0, last_object_message: last_message }
    }

    /// One more echo is expected.
    pub fn inc(&mut self)
        requires
            old(self).count_locks < u32::MAX,
        ensures
            final(self).count_locks == old(self).count_locks + 1,
            final(self).last_object_message@ == old(self).last_object_message@,
    {
        self.count_locks = self.count_locks + 1;
    }

    /// An expected echo arrived. The count never goes below zero.
    pub fn dec(&mut self)
        ensures
            final(self).count_locks == if old(self).count_locks > 0 {
                (old(self).count_locks - 1) as u32
            } else {
                0u32
            },
            final(self).last_object_message@ == old(self).last_object_message@,
    {
        if self.count_locks > 0 {
            self.count_locks = self.count_locks - 1;
        }
    }

    /// Records `o` as the last text seen.
    pub fn replace(&mut self, o: String)
        ensures
            final(self).count_locks == old(self).count_locks,
            final(self).last_object_message@ == o@,
    {
        self.last_object_message = o;
    }
}

} // verus!
