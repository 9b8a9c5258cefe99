//! The device controller.
//!
//! A controller is an immutable snapshot: the identifier of whatever device
//! was the system default when it was bound, plus the channel indices a
//! finished discovery scan found then. Volume and mute operations are split
//! into the verified decisions — which addresses to write with which raw
//! values, how to aggregate what was read, when to fall back to a
//! master-scope write — and the platform property calls themselves, which
//! the caller performs, handing raw results back as plain values.
//!
//! The platform exchanges the volume of a channel as a scalar gain between
//! 0.0 and 1.0. The library holds that scalar in fixed point: a `u32` count
//! of steps of one millionth, so [`SCALAR_ONE`] is full volume and one
//! percent is [`SCALAR_PER_PERCENT`] steps. The caller converts between the
//! platform's 4-byte float and this fixed-point form at the boundary.

use vstd::arithmetic::div_mod::lemma_div_by_multiple;
use vstd::arithmetic::div_mod::lemma_div_is_ordered;
use vstd::arithmetic::div_mod::lemma_div_multiples_vanish;
use vstd::arithmetic::div_mod::lemma_div_multiples_vanish_fancy;
use vstd::prelude::*;

use crate::discovery::ascending;
use crate::discovery::lemma_ascending_len;
use crate::discovery::DiscoveryScan;
use crate::error::AudioError;
use crate::property::mute_addr;
use crate::property::mute_address;
use crate::property::volume_addr;
use crate::property::volume_address;
use crate::property::PropertyAddress;
use crate::property::ELEMENT_MASTER;

verus! {

/// Full volume in fixed-point scalar steps: the platform's scalar 1.0.
pub const SCALAR_ONE: u32 = 1_000_000;

/// Fixed-point scalar steps per volume percent.
pub const SCALAR_PER_PERCENT: u32 = 10_000;

/// The largest volume percentage; higher requests are clamped to it.
pub const MAX_PERCENT: u8 = 100;

/// One pending property write: the address to write and the raw value to
/// write there. For volume addresses the value is a fixed-point scalar; for
/// mute addresses it is the flag as an integer.
#[derive(Clone, Copy, Debug, PartialEq, Eq, Structural)]
pub struct WriteRequest {
    pub address: PropertyAddress,
    pub value: u32,
}

/// A requested percentage clamped to 0 ..= 100.
pub open spec fn clamp_percent(v: u8) -> u8 {
    if v > MAX_PERCENT {
        MAX_PERCENT
    } else {
        v
    }
}

/// The fixed-point scalar written for a requested percentage.
pub open spec fn scalar_of_percent(v: u8) -> u32 {
    (clamp_percent(v) as int * SCALAR_PER_PERCENT as int) as u32
}

/// The raw integer written for a mute flag.
pub open spec fn mute_raw(mute: bool) -> u32 {
    if mute {
        1
    } else {
        0
    }
}

/// The write plan that sets a volume: one write per channel, each carrying
/// the clamped percentage as a fixed-point scalar.
pub open spec fn volume_write_seq(channels: Seq<u32>, vol: u8) -> Seq<WriteRequest> {
    Seq::new(
        channels.len(),
        |i: int| WriteRequest { address: volume_addr(channels[i]), value: scalar_of_percent(vol) },
    )
}

/// The write plan that sets the mute flag: one write per channel.
pub open spec fn mute_write_seq(channels: Seq<u32>, mute: bool) -> Seq<WriteRequest> {
    Seq::new(
        channels.len(),
        |i: int| WriteRequest { address: mute_addr(channels[i]), value: mute_raw(mute) },
    )
}

/// The master-scope mute write used as a fallback.
pub open spec fn master_mute_request(mute: bool) -> WriteRequest {
    WriteRequest { address: mute_addr(ELEMENT_MASTER), value: mute_raw(mute) }
}

/// The sum of a sequence of fixed-point scalars.
pub open spec fn scalar_sum(s: Seq<u32>) -> int
    decreases s.len(),
{
    if s.len() == 0 {
        0
    } else {
        scalar_sum(s.drop_last()) + s.last()
    }
}

/// The percentage reported for a nonempty list of per-channel scalars: the
/// per-channel percentages averaged, truncated to a whole percent.
pub open spec fn average_percent(s: Seq<u32>) -> int
    recommends
        s.len() > 0,
{
    scalar_sum(s) / (s.len() as int * SCALAR_PER_PERCENT as int)
}

/// The fixed-point scalar for a requested percentage, clamping to
/// [`MAX_PERCENT`] first.
pub fn volume_scalar(vol: u8) -> (r: u32)
    ensures
        r == scalar_of_percent(vol),
        r <= SCALAR_ONE,
{
    let v: u8 = if vol > MAX_PERCENT {
        MAX_PERCENT
    } else {
        vol
    };
    (v as u32) * SCALAR_PER_PERCENT
}

/// One audio output device, bound at construction to a device identifier and
/// the channel list a finished discovery scan produced, both immutable for
/// the controller's lifetime. If the system default changes afterwards the
/// controller keeps addressing the old device; `is_default` detects this.
#[derive(Debug)]
pub struct AudioOutputDevice {
    device_id: u32,
    valid_channels: Vec<u32>,
}

impl AudioOutputDevice {
    /// The identifier of the device this controller is bound to.
    pub closed spec fn id(self) -> u32 {
        self.device_id
    }

    /// The channel indices discovered at construction.
    pub closed spec fn channels(self) -> Seq<u32> {
        self.valid_channels@
    }

    /// The channel list is strictly ascending, as discovery produces it.
    pub open spec fn wf(self) -> bool {
        ascending(self.channels())
    }

    /// Binds a controller to a device identifier and the channels a finished
    /// scan found. The identifier should come from a default-output-device
    /// query made just before the scan.
    pub fn bind(device_id: u32, scan: DiscoveryScan) -> (r: AudioOutputDevice)
        requires
            scan.wf(),
            scan.spec_done(),
        ensures
            r.wf(),
            r.id() == device_id,
            r.channels() == scan.channels(),
    {
        proof {
            scan.lemma_scan_bounded();
        }
        let valid_channels = scan.into_channels();
        AudioOutputDevice { device_id, valid_channels }
    }

    /// The identifier of the bound device.
    pub fn device_id(&self) -> (r: u32)
        ensures
            r == self.id(),
    {
        self.device_id
    }

    /// How many channels were discovered.
    pub fn channel_count(&self) -> (r: usize)
        ensures
            r == self.channels().len(),
    {
        self.valid_channels.len()
    }

    /// The index of one discovered channel.
    pub fn channel_at(&self, i: usize) -> (r: u32)
        requires
            i < self.channels().len(),
        ensures
            r == self.channels()[i as int],
    {
        self.valid_channels[i]
    }

    /// The address channel `i`'s volume scalar is read from.
    pub fn volume_read_address(&self, i: usize) -> (r: PropertyAddress)
        requires
            i < self.channels().len(),
        ensures
            r == volume_addr(self.channels()[i as int]),
    {
        volume_address(self.valid_channels[i])
    }

    /// The master-scope address the mute flag is read from.
    pub fn mute_read_address(&self) -> (r: PropertyAddress)
        ensures
            r == mute_addr(ELEMENT_MASTER),
    {
        mute_address(ELEMENT_MASTER)
    }

    /// Aggregates the per-channel volume scalars the caller read — one per
    /// discovered channel, in channel order — into the device's volume
    /// percentage: the average of the per-channel percentages, truncated.
    /// A device without discoverable channels has no average and is reported
    /// as [`AudioError::NoChannels`] rather than divided by zero.
    pub fn get_volume(&self, scalars: &Vec<u32>) -> (r: Result<u8, AudioError>)
        requires
            self.wf(),
            scalars@.len() == self.channels().len(),
            forall|k: int| 0 <= k < scalars@.len() ==> scalars@[k] <= SCALAR_ONE,
        ensures
            self.channels().len() == 0 ==> r == Result::<u8, AudioError>::Err(
                AudioError::NoChannels,
            ),
            self.channels().len() > 0 ==> 0 <= average_percent(scalars@) <= MAX_PERCENT,
            self.channels().len() > 0 ==> r == Result::<u8, AudioError>::Ok(
                average_percent(scalars@) as u8,
            ),
    {
        let n = scalars.len();
        if n == 0 {
            return Err(AudioError::NoChannels);
        }
        proof {
            lemma_ascending_len(self.channels());
        }
        let mut sum: u64 = 0;
        let mut i: usize = 0;
        while i < n
            invariant
                n == scalars@.len(),
                n <= 0x1_0000_0000,
                i <= n,
                forall|k: int| 0 <= k < scalars@.len() ==> scalars@[k] <= SCALAR_ONE,
                sum == scalar_sum(scalars@.take(i as int)),
                sum <= i as int * SCALAR_ONE as int,
            decreases n - i,
        {
            proof {
                assert(scalars@.take(i as int + 1).drop_last() =~= scalars@.take(i as int));
                assert(scalars@.take(i as int + 1).last() == scalars@[i as int]);
            }
            sum = sum + (scalars[i] as u64);
            i = i + 1;
        }
        proof {
            assert(scalars@.take(n as int) =~= scalars@);
        }
        proof {
            assert(n as int * (SCALAR_PER_PERCENT as u64) as int <= 0x1_0000_0000 * 10_000)
                by (nonlinear_arith)
                requires
                    n as int <= 0x1_0000_0000,
                    (SCALAR_PER_PERCENT as u64) as int == 10_000,
            ;
        }
        let divisor: u64 = (n as u64) * (SCALAR_PER_PERCENT as u64);
        let avg: u64 = sum / divisor;
        proof {
            assert(sum <= 100 * divisor);
            lemma_div_is_ordered(sum as int, 100 * divisor as int, divisor as int);
            lemma_div_by_multiple(100, divisor as int);
            assert((100 * divisor as int) / divisor as int == 100);
        }
        Ok(avg as u8)
    }

    /// The writes that set the device volume: one per channel, carrying the
    /// clamped percentage as a fixed-point scalar. The caller issues them in
    /// order and stops at the first nonzero status, which it reports
    /// unchanged; writes already made are not rolled back.
    pub fn set_volume_requests(&self, vol: u8) -> (r: Vec<WriteRequest>)
        ensures
            r@ == volume_write_seq(self.channels(), vol),
    {
        let scalar = volume_scalar(vol);
        let plan = Ghost(volume_write_seq(self.channels(), vol));
        let mut r: Vec<WriteRequest> = Vec::new();
        let mut i: usize = 0;
        while i < self.valid_channels.len()
            invariant
                i <= self.valid_channels@.len(),
                scalar == scalar_of_percent(vol),
                plan@ == volume_write_seq(self.valid_channels@, vol),
                r@ == plan@.take(i as int),
            decreases self.valid_channels@.len() - i,
        {
            r.push(WriteRequest { address: volume_address(self.valid_channels[i]), value: scalar });
            proof {
                assert(r@ =~= plan@.take(i as int + 1));
            }
            i = i + 1;
        }
        proof {
            assert(r@ =~= volume_write_seq(self.valid_channels@, vol));
        }
        r
    }

    /// The writes that set the mute flag: one per channel, each carrying the
    /// flag as a raw integer. The caller issues all of them and hands every
    /// status back to [`Self::set_mute_fallback`]; unlike volume writes,
    /// mute writes never stop early.
    pub fn set_mute_requests(&self, mute: bool) -> (r: Vec<WriteRequest>)
        ensures
            r@ == mute_write_seq(self.channels(), mute),
    {
        let raw: u32 = if mute {
            1
        } else {
            0
        };
        let plan = Ghost(mute_write_seq(self.channels(), mute));
        let mut r: Vec<WriteRequest> = Vec::new();
        let mut i: usize = 0;
        while i < self.valid_channels.len()
            invariant
                i <= self.valid_channels@.len(),
                raw == mute_raw(mute),
                plan@ == mute_write_seq(self.valid_channels@, mute),
                r@ == plan@.take(i as int),
            decreases self.valid_channels@.len() - i,
        {
            r.push(WriteRequest { address: mute_address(self.valid_channels[i]), value: raw });
            proof {
                assert(r@ =~= plan@.take(i as int + 1));
            }
            i = i + 1;
        }
        proof {
            assert(r@ =~= mute_write_seq(self.valid_channels@, mute));
        }
        r
    }

    /// The decision after the per-channel mute writes, given their statuses
    /// in write order: if any failed, one master-scope write of the same
    /// value is attempted instead, and its status alone decides the
    /// operation; if all succeeded, nothing further is written and the
    /// operation has succeeded. This fallback exists because some devices
    /// support mute only at the master level.
    pub fn set_mute_fallback(&self, mute: bool, statuses: &Vec<i32>) -> (r: Option<WriteRequest>)
        requires
            statuses@.len() == self.channels().len(),
        ensures
            r is Some <==> (exists|k: int| 0 <= k < statuses@.len() && statuses@[k] != 0),
            r is Some ==> r == Some(master_mute_request(mute)),
    {
        let mut any_failed = false;
        let mut i: usize = 0;
        while i < statuses.len()
            invariant
                i <= statuses@.len(),
                any_failed <==> (exists|k: int| 0 <= k < i && statuses@[k] != 0),
            decreases statuses@.len() - i,
        {
            if statuses[i] != 0 {
                any_failed = true;
            }
            i = i + 1;
        }
        if any_failed {
            let raw: u32 = if mute {
                1
            } else {
                0
            };
            Some(WriteRequest { address: mute_address(ELEMENT_MASTER), value: raw })
        } else {
            None
        }
    }

    /// Interprets the raw master-scope mute value the caller read: nonzero
    /// means muted.
    pub fn is_muted(&self, raw: u32) -> (r: bool)
        ensures
            r == (raw != 0),
    {
        raw != 0
    }

    /// Compares the identifier of the current system default output device,
    /// as freshly re-queried by the caller, with the device this controller
    /// was bound to.
    pub fn is_default(&self, current_default: u32) -> (r: bool)
        ensures
            r == (current_default == self.id()),
    {
        self.device_id == current_default
    }
}

/// The sum of a constant sequence of scalars.
proof fn lemma_scalar_sum_constant(s: Seq<u32>, v: u32)
    requires
        forall|i: int| 0 <= i < s.len() ==> s[i] == v,
    ensures
        scalar_sum(s) == s.len() * v,
    decreases s.len(),
{
    if s.len() > 0 {
        lemma_scalar_sum_constant(s.drop_last(), v);
        assert(s.len() as int * v == (s.len() - 1) * v + v) by (nonlinear_arith);
    }
}

/// The sum of a sequence of scalars that all lie in one interval.
proof fn lemma_scalar_sum_bounds(s: Seq<u32>, lo: int, hi: int)
    requires
        forall|i: int| 0 <= i < s.len() ==> lo <= #[trigger] s[i] <= hi,
    ensures
        s.len() * lo <= scalar_sum(s) <= s.len() * hi,
    decreases s.len(),
{
    if s.len() > 0 {
        lemma_scalar_sum_bounds(s.drop_last(), lo, hi);
        assert(s.len() as int * lo == (s.len() - 1) * lo + lo) by (nonlinear_arith);
        assert(s.len() as int * hi == (s.len() - 1) * hi + hi) by (nonlinear_arith);
    }
}

/// Round trip of the volume under read-back jitter: when every channel
/// reads back a scalar within less than one percent-step of what was
/// written for a requested percentage, the reported volume is within one
/// percent of the clamped request.
pub proof fn lemma_volume_round_trip_tolerant(scalars: Seq<u32>, vol: u8, delta: int)
    requires
        scalars.len() > 0,
        0 <= delta < SCALAR_PER_PERCENT,
        forall|i: int| 0 <= i < scalars.len() ==> scalar_of_percent(vol) - delta
            <= #[trigger] scalars[i] <= scalar_of_percent(vol) + delta,
    ensures
        clamp_percent(vol) - 1 <= average_percent(scalars) <= clamp_percent(vol) as int,
{
    let n = scalars.len() as int;
    let c = clamp_percent(vol) as int;
    let p = scalar_of_percent(vol) as int;
    let spp = SCALAR_PER_PERCENT as int;
    let d = n * spp;
    let s = scalar_sum(scalars);
    lemma_scalar_sum_bounds(scalars, p - delta, p + delta);
    assert(d >= n) by (nonlinear_arith)
        requires
            n >= 1,
            spp >= 1,
            d == n * spp,
    ;
    assert(n * (p + delta) == c * d + n * delta) by (nonlinear_arith)
        requires
            p == c * spp,
            d == n * spp,
    ;
    assert(n * (p - delta) == c * d - n * delta) by (nonlinear_arith)
        requires
            p == c * spp,
            d == n * spp,
    ;
    assert(n * delta <= d - n) by (nonlinear_arith)
        requires
            0 <= delta <= spp - 1,
            d == n * spp,
            n >= 1,
    ;
    // upper bound: s <= c*d + (d - 1), so s / d <= c
    lemma_div_is_ordered(s, d * c + (d - 1), d);
    lemma_div_multiples_vanish_fancy(c, d - 1, d);
    // lower bound: (c - 1)*d <= s, so c - 1 <= s / d
    assert(d * (c - 1) == c * d - d) by (nonlinear_arith);
    lemma_div_is_ordered(d * (c - 1), s, d);
    lemma_div_multiples_vanish(c - 1, d);
}

/// Round trip of the volume: when every channel reads back exactly the
/// fixed-point scalar that was written for a requested percentage, the
/// reported volume is exactly the clamped request — so in particular within
/// the one percent the interface tolerates.
pub proof fn lemma_volume_round_trip(scalars: Seq<u32>, vol: u8)
    requires
        scalars.len() > 0,
        forall|i: int| 0 <= i < scalars.len() ==> scalars[i] == scalar_of_percent(vol),
    ensures
        average_percent(scalars) == clamp_percent(vol) as int,
{
    let n = scalars.len() as int;
    let c = clamp_percent(vol) as int;
    let d = n * SCALAR_PER_PERCENT as int;
    lemma_scalar_sum_constant(scalars, scalar_of_percent(vol));
    assert(scalar_of_percent(vol) as int == c * SCALAR_PER_PERCENT as int);
    assert(n * (c * SCALAR_PER_PERCENT as int) == c * d) by (nonlinear_arith)
        requires
            d == n * SCALAR_PER_PERCENT as int,
    ;
    lemma_div_by_multiple(c, d);
    assert((c * d) / d == c);
}

/// Requests above the largest percentage act exactly as the largest: the
/// volume write plan of any request equals the plan of its clamped value.
pub proof fn lemma_set_volume_clamps(channels: Seq<u32>, vol: u8)
    ensures
        volume_write_seq(channels, vol) == volume_write_seq(channels, clamp_percent(vol)),
{
    assert(volume_write_seq(channels, vol) =~= volume_write_seq(channels, clamp_percent(vol)));
}

/// Round trip of the mute flag: the raw value written for a requested mute
/// state reads back as exactly that state.
pub proof fn lemma_mute_round_trip(mute: bool)
    ensures
        (mute_raw(mute) != 0) == mute,
{
}

/// A fresh controller is the default: binding keeps the queried identifier
/// unchanged, and as long as no change intervenes — the default-device query
/// still answers with that identifier — the default comparison succeeds.
pub proof fn lemma_fresh_controller_is_default(dev: AudioOutputDevice, queried_id: u32)
    requires
        dev.id() == queried_id,
    ensures
        (queried_id == dev.id()) == true,
{
}

} // verus!
