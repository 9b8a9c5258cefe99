//! Channel discovery.
//!
//! The platform does not expose a channel count, so the channels of a device
//! are found by probing: starting at element 0, ask whether the volume
//! property exists at that element, record the element on a hit, count a miss
//! otherwise, and move to the next element either way. The scan stops once
//! the miss counter — which is never reset, so it counts misses over the
//! whole scan, not consecutive ones — reaches [`CHANNEL_CHECK_FAILS`]. The
//! probes themselves are platform calls that the caller performs; this module
//! holds the scan state and the decision of what to probe next and when to
//! stop, so every finished scan is proved to have made exactly
//! `channels found + CHANNEL_CHECK_FAILS` probes and to hold a strictly
//! ascending, duplicate-free channel list.

use vstd::prelude::*;

use crate::property::volume_addr;
use crate::property::volume_address;
use crate::property::PropertyAddress;

verus! {

/// How many misses end a scan.
pub const CHANNEL_CHECK_FAILS: u32 = 3;

/// A sequence of channel indices in strictly ascending order.
pub open spec fn ascending(s: Seq<u32>) -> bool {
    forall|i: int, j: int| 0 <= i < j < s.len() ==> s[i] < s[j]
}

/// Each entry of a strictly ascending sequence is at least as large as its
/// index.
pub proof fn lemma_ascending_ge_index(s: Seq<u32>, i: int)
    requires
        ascending(s),
        0 <= i < s.len(),
    ensures
        s[i] >= i,
    decreases i,
{
    if i > 0 {
        lemma_ascending_ge_index(s, i - 1);
        assert(s[i - 1] < s[i]);
    }
}

/// A strictly ascending sequence of 32-bit channel indices can hold at most
/// one entry per index, so its length is bounded by the index space.
pub proof fn lemma_ascending_len(s: Seq<u32>)
    requires
        ascending(s),
    ensures
        s.len() <= 0x1_0000_0000,
{
    if s.len() > 0x1_0000_0000 {
        lemma_ascending_ge_index(s, 0x1_0000_0000);
    }
}

/// The state of one channel scan: the channels found so far, the number of
/// misses so far, and the element the next probe will ask about.
pub struct DiscoveryScan {
    found: Vec<u32>,
    failures: u32,
    next_element: u32,
}

impl DiscoveryScan {
    /// The channels found so far, in the order they were probed.
    pub closed spec fn channels(self) -> Seq<u32> {
        self.found@
    }

    /// How many probes have missed so far.
    pub closed spec fn misses(self) -> u32 {
        self.failures
    }

    /// How many probes have been made so far; also the element the next
    /// probe will ask about.
    pub closed spec fn probed(self) -> u32 {
        self.next_element
    }

    /// A finished scan: the miss budget is used up.
    pub open spec fn spec_done(self) -> bool {
        self.misses() >= CHANNEL_CHECK_FAILS
    }

    /// Every reachable scan state satisfies this: the miss count stays within
    /// its budget, the found channels are strictly ascending and below the
    /// probe cursor, and every probed element is accounted for as either a
    /// found channel or a miss.
    pub closed spec fn wf(self) -> bool {
        &&& self.failures <= CHANNEL_CHECK_FAILS
        &&& ascending(self.found@)
        &&& forall|i: int| 0 <= i < self.found@.len() ==> self.found@[i] < self.next_element
        &&& self.found@.len() + self.failures == self.next_element
    }

    /// A fresh scan: nothing probed, nothing found, no misses.
    pub fn new() -> (r: DiscoveryScan)
        ensures
            r.wf(),
            r.channels() == Seq::<u32>::empty(),
            r.misses() == 0,
            r.probed() == 0,
    {
        let r = DiscoveryScan { found: Vec::new(), failures: 0, next_element: 0 };
        proof {
            assert(r.found@ == Seq::<u32>::empty());
        }
        r
    }

    /// Whether the scan is over.
    pub fn is_done(&self) -> (r: bool)
        ensures
            r == self.spec_done(),
    {
        self.failures >= CHANNEL_CHECK_FAILS
    }

    /// The address the next probe asks about: the volume property at the
    /// current cursor element.
    pub fn probe_address(&self) -> (r: PropertyAddress)
        ensures
            r == volume_addr(self.probed()),
    {
        volume_address(self.next_element)
    }

    /// Records the outcome of one probe of [`Self::probe_address`]: a hit
    /// appends the probed element to the channel list, a miss spends one unit
    /// of the miss budget; either way the cursor moves to the next element.
    pub fn record(&mut self, present: bool)
        requires
            old(self).wf(),
            !old(self).spec_done(),
            old(self).probed() < u32::MAX,
        ensures
            final(self).wf(),
            final(self).probed() == old(self).probed() + 1,
            present ==> final(self).channels() == old(self).channels().push(old(self).probed()),
            present ==> final(self).misses() == old(self).misses(),
            !present ==> final(self).channels() == old(self).channels(),
            !present ==> final(self).misses() == old(self).misses() + 1,
            final(self).spec_done() <==> (!present && old(self).misses() + 1 == CHANNEL_CHECK_FAILS),
    {
        if present {
            self.found.push(self.next_element);
        } else {
            self.failures = self.failures + 1;
        }
        self.next_element = self.next_element + 1;
    }

    /// A scan makes a bounded number of probes: at every reachable state the
    /// probe count equals the channels found plus the misses, and the misses
    /// never exceed [`CHANNEL_CHECK_FAILS`] — so a finished scan probed
    /// exactly `channels + CHANNEL_CHECK_FAILS` elements. The channel list is
    /// strictly ascending, hence free of duplicates.
    pub proof fn lemma_scan_bounded(self)
        requires
            self.wf(),
        ensures
            self.probed() == self.channels().len() + self.misses(),
            self.misses() <= CHANNEL_CHECK_FAILS,
            self.spec_done() ==> self.probed() == self.channels().len() + CHANNEL_CHECK_FAILS,
            ascending(self.channels()),
            forall|i: int| 0 <= i < self.channels().len() ==> self.channels()[i] < self.probed(),
    {
    }

    /// Hands the found channels out, ending the scan.
    pub fn into_channels(self) -> (r: Vec<u32>)
        ensures
            r@ == self.channels(),
    {
        self.found
    }
}

} // verus!
