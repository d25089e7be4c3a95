//! Conversion of monotonic timestamps to real time.
//!
//! Events from the kernel carry `CLOCK_MONOTONIC` timestamps, while absolute times
//! are `CLOCK_REALTIME`. A calibration measures the offset between the two clocks,
//! and [`bpf_ktime_to_realtime`] applies it.

use vstd::prelude::*;

use nix::errno::Errno;

use crate::error::TimpaniError;
use crate::error::TimpaniResult;
use crate::sys::read_in_turn;
use crate::sys::Clock;
use crate::sys::ClockReader;

verus! {

/// How many samples a calibration takes.
pub const CALIBRATION_SAMPLES: usize = 20;

/// Nanoseconds in a second.
pub const NANOS_PER_SEC: u64 = 1_000_000_000;

/// One more than the largest 64-bit number.
pub open spec fn two_pow_64() -> int {
    0x1_0000_0000_0000_0000
}

/// The number from 0 to 2^64 - 1 that is congruent to `x` modulo 2^64.
pub open spec fn wrap(x: int) -> int {
    x % two_pow_64()
}

/// The number from -2^63 to 2^63 - 1 that is congruent to `x` modulo 2^64.
pub open spec fn wrap_signed(x: int) -> int {
    if wrap(x) < two_pow_64() / 2 {
        wrap(x)
    } else {
        wrap(x) - two_pow_64()
    }
}

/// The real time just before and just after a reading of the monotonic clock, all in
/// nanoseconds.
#[derive(Debug, Clone, Copy, PartialEq, Eq, Structural)]
pub struct ClockSample {
    pub before: u64,
    pub monotonic: u64,
    pub after: u64,
}

impl ClockSample {
    /// How long the sample took.
    pub open spec fn spec_delta(self) -> int {
        wrap(self.after - self.before)
    }

    /// The best estimate of the real time at which the monotonic clock was read: the
    /// midpoint of the two readings around it.
    pub open spec fn spec_midpoint(self) -> int {
        wrap(self.before + self.after) / 2
    }

    /// What leads from the monotonic reading to the midpoint.
    pub open spec fn spec_offset(self) -> int {
        wrap_signed(self.spec_midpoint() - self.monotonic)
    }

    /// How long the sample took.
    pub fn delta(&self) -> (nanos: u64)
        ensures
            nanos == self.spec_delta(),
    {
        self.after.wrapping_sub(self.before)
    }

    /// The midpoint of the two real time readings.
    pub fn midpoint(&self) -> (nanos: u64)
        ensures
            nanos == self.spec_midpoint(),
    {
        self.after.wrapping_add(self.before) / 2
    }

    /// The offset that leads from the monotonic reading to the midpoint.
    pub fn offset(&self) -> (nanos: i64)
        ensures
            nanos == self.spec_offset(),
    {
        let midpoint: u64 = self.midpoint();
        let monotonic: u64 = self.monotonic;
        let difference: u64 = midpoint.wrapping_sub(monotonic);
        assert(difference == wrap(midpoint - monotonic));
        assert(difference < 0x8000_0000_0000_0000 ==> (difference as i64) == difference)
            by (bit_vector);
        assert(difference >= 0x8000_0000_0000_0000 ==> (difference as i64) == difference
            - 0x1_0000_0000_0000_0000) by (bit_vector);
        difference as i64
    }
}

/// Sample `k` is the first of the quickest ones.
pub open spec fn is_quickest(samples: Seq<ClockSample>, k: int) -> bool {
    &&& 0 <= k < samples.len()
    &&& forall|j: int|
        0 <= j < samples.len() ==> samples[k].spec_delta() <= (#[trigger] samples[j]).spec_delta()
    &&& forall|j: int|
        0 <= j < k ==> samples[k].spec_delta() < (#[trigger] samples[j]).spec_delta()
}

/// `offset` is what a calibration makes of `samples`: the offset of the first of the
/// quickest samples. A sample that took 2^64 - 1 nanoseconds counts for nothing, and
/// without any other the offset is 0.
pub open spec fn is_calibrated_offset(samples: Seq<ClockSample>, offset: int) -> bool {
    ||| exists|k: int|
        is_quickest(samples, k) && (#[trigger] samples[k]).spec_delta() < u64::MAX && offset
            == samples[k].spec_offset()
    ||| offset == 0 && forall|j: int|
        0 <= j < samples.len() ==> (#[trigger] samples[j]).spec_delta() == u64::MAX
}

/// Picks the offset of the first of the quickest samples.
pub fn best_offset(samples: &Vec<ClockSample>) -> (offset: i64)
    ensures
        is_calibrated_offset(samples@, offset as int),
{
    let mut best_delta: u64 = u64::MAX;
    let mut best_offset: i64 = 0;
    let ghost mut best: int = -1;
    for i in 0..samples.len()
        invariant
            best_delta < u64::MAX ==> 0 <= best < i && best_delta == samples@[best].spec_delta()
                && best_offset == samples@[best].spec_offset(),
            best_delta == u64::MAX ==> best_offset == 0,
            forall|j: int| 0 <= j < i ==> best_delta <= (#[trigger] samples@[j]).spec_delta(),
            forall|j: int| 0 <= j < best ==> best_delta < (#[trigger] samples@[j]).spec_delta(),
            best < i,
    {
        let delta: u64 = samples[i].delta();
        if delta < best_delta {
            best_delta = delta;
            best_offset = samples[i].offset();
            proof {
                best = i as int;
            }
        }
    }
    proof {
        if best_delta < u64::MAX {
            assert(is_quickest(samples@, best));
        } else {
            assert forall|j: int| 0 <= j < samples@.len() implies (#[trigger] samples@[j]).spec_delta()
                == u64::MAX by {
                assert(best_delta <= samples@[j].spec_delta());
                assert(samples@[j].spec_delta() < two_pow_64());
            }
        }
    }
    best_offset
}

/// `clock` can show `nanos`.
pub open spec fn can_show(clock: Clock, nanos: u64) -> bool {
    exists|reading: Result<(i64, i64), Errno>| #[trigger]
        read_in_turn(seq![(clock, reading)]) && reading_in_ns(reading) == Ok::<u64, TimpaniError>(nanos)
}

/// `clock` can fail to be read.
pub open spec fn can_fail(clock: Clock) -> bool {
    exists|reading: Result<(i64, i64), Errno>| #[trigger]
        read_in_turn(seq![(clock, reading)]) && reading is Err
}

/// The nanoseconds of a reading that did not fail.
pub open spec fn ns_of(reading: Result<(i64, i64), Errno>) -> u64 {
    reading_in_ns(reading)->Ok_0
}

/// The samples that readings in the order of a calibration make: each three are the real
/// time before, the monotonic clock, and the real time after.
pub open spec fn samples_of(readings: Seq<Result<(i64, i64), Errno>>) -> Seq<ClockSample> {
    Seq::new(
        readings.len() / 3,
        |i: int|
            ClockSample {
                before: ns_of(readings[3 * i]),
                monotonic: ns_of(readings[3 * i + 1]),
                after: ns_of(readings[3 * i + 2]),
            },
    )
}

/// `result` is what a calibration with `readings` comes to: the offset of the samples that
/// they make where none failed, and `Io` where one did.
pub open spec fn calibrates_to(
    readings: Seq<Result<(i64, i64), Errno>>,
    result: TimpaniResult<i64>,
) -> bool {
    match result {
        Ok(offset) => {
            &&& forall|i: int| 0 <= i < readings.len() ==> (#[trigger] readings[i]) is Ok
            &&& is_calibrated_offset(samples_of(readings), offset as int)
        },
        Err(error) => {
            &&& error == TimpaniError::Io
            &&& exists|i: int| 0 <= i < readings.len() && (#[trigger] readings[i]) is Err
        },
    }
}

/// What a calibration makes of its readings, in the order in which they were made: the
/// offset of the first of the quickest samples, or `Io` where a reading failed.
pub fn calibration_of(readings: &Vec<Result<(i64, i64), Errno>>) -> (result: TimpaniResult<i64>)
    ensures
        calibrates_to(readings@, result),
{
    for i in 0..readings.len()
        invariant
            forall|j: int| 0 <= j < i ==> (#[trigger] readings@[j]) is Ok,
    {
        if readings[i].is_err() {
            return Err(TimpaniError::Io);
        }
    }
    let length: usize = readings.len();
    let count: usize = length / 3;
    let mut samples: Vec<ClockSample> = Vec::with_capacity(count);
    for k in 0..count
        invariant
            length == readings@.len(),
            count == length / 3,
            samples@ == samples_of(readings@).take(k as int),
            forall|j: int| 0 <= j < readings@.len() ==> (#[trigger] readings@[j]) is Ok,
    {
        let before: u64 = reading_to_ns(readings[3 * k])?;
        let monotonic: u64 = reading_to_ns(readings[3 * k + 1])?;
        let after: u64 = reading_to_ns(readings[3 * k + 2])?;
        samples.push(ClockSample { before, monotonic, after });
        assert(samples@ =~= samples_of(readings@).take(k + 1));
    }
    assert(samples@ =~= samples_of(readings@));
    Ok(best_offset(&samples))
}

/// The clock that reading `i` of a calibration is of: the monotonic one in the middle of
/// each three.
pub open spec fn clock_at(i: int) -> Clock {
    if i % 3 == 1 {
        Clock::Monotonic
    } else {
        Clock::Realtime
    }
}

/// The clock to read after `readings`: none where the last one failed, or where there are
/// three for each of the [`CALIBRATION_SAMPLES`] samples.
pub open spec fn clock_after(readings: Seq<Result<(i64, i64), Errno>>) -> Option<Clock> {
    if readings.len() >= 3 * CALIBRATION_SAMPLES || (readings.len() > 0 && readings.last() is Err) {
        None
    } else {
        Some(clock_at(readings.len() as int))
    }
}

/// The clock that a calibration reads next, if any, after the readings that it made.
pub fn next_clock(readings: &Vec<Result<(i64, i64), Errno>>) -> (clock: Option<Clock>)
    ensures
        clock == clock_after(readings@),
{
    let made: usize = readings.len();
    if made >= 3 * CALIBRATION_SAMPLES {
        None
    } else if made > 0 && readings[made - 1].is_err() {
        None
    } else if made % 3 == 1 {
        Some(Clock::Monotonic)
    } else {
        Some(Clock::Realtime)
    }
}

/// The clocks that a calibration reads, in turn, each with what it showed.
pub open spec fn in_turn(readings: Seq<Result<(i64, i64), Errno>>) -> Seq<
    (Clock, Result<(i64, i64), Errno>),
> {
    Seq::new(readings.len(), |i: int| (clock_at(i), readings[i]))
}

/// `readings` are all that a calibration makes: three for each of the
/// [`CALIBRATION_SAMPLES`] samples, or fewer where the last one failed. None before the last
/// one failed.
pub open spec fn is_complete(readings: Seq<Result<(i64, i64), Errno>>) -> bool {
    &&& readings.len() <= 3 * CALIBRATION_SAMPLES
    &&& readings.len() < 3 * CALIBRATION_SAMPLES ==> readings.len() > 0 && readings.last() is Err
    &&& forall|i: int| 0 <= i < readings.len() - 1 ==> (#[trigger] readings[i]) is Ok
}

/// Measures the offset between the monotonic and the real time clock, with `reader`.
///
/// The reader makes the readings of the calibration, each once and in turn, and no others.
/// It reads no clock after one that could not be read.
pub fn calibrate_with(reader: &mut ClockReader) -> (result: TimpaniResult<i64>)
    ensures
        read_in_turn(final(reader)@),
        exists|readings: Seq<Result<(i64, i64), Errno>>|
            {
                &&& #[trigger] is_complete(readings)
                &&& final(reader)@ == old(reader)@ + in_turn(readings)
                &&& calibrates_to(readings, result)
            },
{
    let mut readings: Vec<Result<(i64, i64), Errno>> = Vec::with_capacity(3 * CALIBRATION_SAMPLES);
    assert(reader@ =~= old(reader)@ + in_turn(readings@));
    loop
        invariant
            readings@.len() <= 3 * CALIBRATION_SAMPLES,
            forall|i: int| 0 <= i < readings@.len() - 1 ==> (#[trigger] readings@[i]) is Ok,
            reader@ == old(reader)@ + in_turn(readings@),
            readings@.len() > 0 ==> read_in_turn(reader@),
        ensures
            clock_after(readings@) is None,
        decreases 3 * CALIBRATION_SAMPLES - readings@.len(),
    {
        match next_clock(&readings) {
            Some(clock) => {
                let ghost before = readings@;
                let reading = reader.read(clock);
                readings.push(reading);
                assert(in_turn(readings@) =~= in_turn(before).push((clock, reading)));
                assert(reader@ =~= old(reader)@ + in_turn(readings@));
            },
            None => {
                break;
            },
        }
    }
    assert(is_complete(readings@));
    calibration_of(&readings)
}

/// Measures the offset between the monotonic and the real time clock.
///
/// The clocks are read for [`CALIBRATION_SAMPLES`] samples, and the quickest sample counts:
/// it is the one that a context switch or a slow read disturbed least. `Io` is
/// returned where a clock cannot be read, and no clock is read after that. What the clocks
/// show is the machine's: [`next_clock`] says which one is read after each reading, and
/// [`calibration_of`] what comes of all of them.
///
/// The contract says that the readings that count are those of one reader, which made each
/// of them once, in turn, and no others. It does not say that there was no other reader.
pub fn calibrate_time_offset() -> (result: TimpaniResult<i64>)
    ensures
        exists|readings: Seq<Result<(i64, i64), Errno>>|
            {
                &&& #[trigger] is_complete(readings)
                &&& read_in_turn(in_turn(readings))
                &&& calibrates_to(readings, result)
            },
{
    let mut reader = ClockReader::new();
    let ghost none = reader@;
    let result = calibrate_with(&mut reader);
    proof {
        let readings = choose|readings: Seq<Result<(i64, i64), Errno>>|
            {
                &&& #[trigger] is_complete(readings)
                &&& reader@ == none + in_turn(readings)
                &&& calibrates_to(readings, result)
            };
        assert(none + in_turn(readings) =~= in_turn(readings));
    }
    result
}

/// The real time of a monotonic timestamp, by an offset.
pub open spec fn realtime_of(timestamp: u64, offset: int) -> int {
    wrap(timestamp + offset)
}

/// Converts a monotonic timestamp to real time, both in nanoseconds, by an offset
/// that [`calibrate_time_offset`] measured.
pub fn bpf_ktime_to_realtime(bpf_ts: u64, offset: i64) -> (realtime: u64)
    ensures
        realtime == realtime_of(bpf_ts, offset as int),
{
    bpf_ts.wrapping_add_signed(offset)
}

/// The nanoseconds of a clock reading in seconds and nanoseconds.
pub fn timespec_to_ns(sec: i64, nsec: i64) -> (nanos: u64)
    ensures
        nanos == wrap(sec * NANOS_PER_SEC + nsec),
{
    let whole: u64 = (sec as u64).wrapping_mul(NANOS_PER_SEC);
    proof {
        assert(sec < 0 ==> (sec as u64) == sec + 0x1_0000_0000_0000_0000) by (bit_vector);
        assert(nsec < 0 ==> (nsec as u64) == nsec + 0x1_0000_0000_0000_0000) by (bit_vector);
        lemma_wrapped_timespec(sec as int, nsec as int, sec as u64 as int, nsec as u64 as int);
    }
    whole.wrapping_add(nsec as u64)
}

/// Taking the parts of a reading modulo 2^64 first does not change the whole.
proof fn lemma_wrapped_timespec(sec: int, nsec: int, sec_u: int, nsec_u: int)
    requires
        sec_u == sec || sec_u == sec + two_pow_64(),
        nsec_u == nsec || nsec_u == nsec + two_pow_64(),
    ensures
        wrap(wrap(sec_u * NANOS_PER_SEC) + nsec_u) == wrap(sec * NANOS_PER_SEC + nsec),
{
}

/// What a clock's reply comes to: its nanoseconds, or `Io`.
pub open spec fn reading_in_ns(reading: Result<(i64, i64), Errno>) -> TimpaniResult<
    u64,
> {
    match reading {
        Ok((sec, nsec)) => Ok(wrap(sec * NANOS_PER_SEC + nsec) as u64),
        Err(_) => Err(TimpaniError::Io),
    }
}

/// Reads the real time clock, in nanoseconds. `Io` is returned where it cannot be
/// read. What the clock shows is the machine's: [`reading_to_ns`] says what comes of it.
pub fn get_realtime_ns() -> (result: TimpaniResult<u64>)
    ensures
        match result {
            Ok(nanos) => can_show(Clock::Realtime, nanos),
            Err(error) => error == TimpaniError::Io && can_fail(Clock::Realtime),
        },
{
    let mut reader = ClockReader::new();
    let reading = reader.read(Clock::Realtime);
    assert(reader@ =~= seq![(Clock::Realtime, reading)]);
    reading_to_ns(reading)
}

/// Reads the monotonic clock, in nanoseconds. `Io` is returned where it cannot be
/// read. What the clock shows is the machine's: [`reading_to_ns`] says what comes of it.
pub fn get_monotonic_ns() -> (result: TimpaniResult<u64>)
    ensures
        match result {
            Ok(nanos) => can_show(Clock::Monotonic, nanos),
            Err(error) => error == TimpaniError::Io && can_fail(Clock::Monotonic),
        },
{
    let mut reader = ClockReader::new();
    let reading = reader.read(Clock::Monotonic);
    assert(reader@ =~= seq![(Clock::Monotonic, reading)]);
    reading_to_ns(reading)
}

/// What a clock's reply comes to: its nanoseconds, or `Io`.
pub fn reading_to_ns(reading: Result<(i64, i64), Errno>) -> (result: TimpaniResult<u64>)
    ensures
        result == reading_in_ns(reading),
{
    match reading {
        Ok((sec, nsec)) => Ok(timespec_to_ns(sec, nsec)),
        Err(_) => Err(TimpaniError::Io),
    }
}

/// An offset carries the monotonic reading of its own sample to the sample's midpoint.
pub proof fn law_offset_leads_to_midpoint(sample: ClockSample)
    ensures
        realtime_of(sample.monotonic, sample.spec_offset()) == sample.spec_midpoint(),
{
}

/// Conversion keeps the distance between two timestamps.
pub proof fn law_conversion_keeps_distances(early: u64, late: u64, offset: i64)
    ensures
        wrap(realtime_of(late, offset as int) - realtime_of(early, offset as int)) == wrap(
            late - early,
        ),
{
}

/// Where the real time is `ahead` of the monotonic clock and lay between the two readings of
/// a sample when the monotonic clock was read, converting any timestamp by the sample's
/// offset misses its real time by one and the same number, which is at most half of what the
/// sample took. Both sides are taken modulo 2^64, and are equal as they are where the real
/// time with the miss fits 64 bits.
pub proof fn law_error_is_at_most_half_the_sample(sample: ClockSample, ahead: int, timestamp: u64)
    requires
        sample.before <= sample.monotonic + ahead <= sample.after,
        sample.before + sample.after < two_pow_64(),
    ensures
        ({
            let miss = sample.spec_midpoint() - (sample.monotonic + ahead);
            let realtime = realtime_of(timestamp, sample.spec_offset());
            &&& -((sample.after - sample.before + 1) / 2) <= miss <= (sample.after - sample.before)
                / 2
            &&& realtime == wrap(timestamp + ahead + miss)
            &&& 0 <= timestamp + ahead + miss < two_pow_64() ==> realtime == timestamp + ahead
                + miss
        }),
{
}

/// A calibration has one result: the samples decide the offset.
pub proof fn law_samples_decide_offset(samples: Seq<ClockSample>, one: int, other: int)
    requires
        is_calibrated_offset(samples, one),
        is_calibrated_offset(samples, other),
    ensures
        one == other,
{
}

/// A calibration has one result: its readings decide it, and nothing else does.
pub proof fn law_readings_decide_result(
    readings: Seq<Result<(i64, i64), Errno>>,
    one: TimpaniResult<i64>,
    other: TimpaniResult<i64>,
)
    requires
        calibrates_to(readings, one),
        calibrates_to(readings, other),
    ensures
        one == other,
{
    if one is Ok && other is Ok {
        law_samples_decide_offset(
            samples_of(readings),
            one->Ok_0 as int,
            other->Ok_0 as int,
        );
    }
}

impl ClockSample {
    /// The real time was `ahead` of the monotonic clock and lay between the two readings
    /// when the monotonic clock was read, and no number leaves its 64 bits.
    pub open spec fn agrees_with(self, ahead: int) -> bool {
        &&& self.before <= self.monotonic + ahead <= self.after
        &&& self.before + self.after < two_pow_64()
        &&& self.after - self.before < u64::MAX
        &&& i64::MIN <= self.spec_midpoint() - self.monotonic <= i64::MAX
    }
}

/// Where the real time is `ahead` of the monotonic clock, a sample's offset is near it.
proof fn lemma_offset_is_near(sample: ClockSample, ahead: int)
    requires
        sample.agrees_with(ahead),
    ensures
        sample.spec_delta() < u64::MAX,
        -((sample.spec_delta() + 1) / 2) <= sample.spec_offset() - ahead <= sample.spec_delta() / 2,
{
    assert(sample.spec_delta() == sample.after - sample.before);
    assert(sample.spec_midpoint() == (sample.before + sample.after) / 2);
    assert(sample.spec_offset() == sample.spec_midpoint() - sample.monotonic);
}

/// Where no reading failed, the offset of the quickest sample is the result.
proof fn lemma_quickest_sample_counts(
    readings: Seq<Result<(i64, i64), Errno>>,
    result: TimpaniResult<i64>,
    k: int,
)
    requires
        calibrates_to(readings, result),
        forall|i: int| 0 <= i < readings.len() ==> (#[trigger] readings[i]) is Ok,
        is_quickest(samples_of(readings), k),
        samples_of(readings)[k].spec_delta() < u64::MAX,
    ensures
        result is Ok,
        result->Ok_0 == samples_of(readings)[k].spec_offset(),
{
    let samples = samples_of(readings);
    assert(is_calibrated_offset(samples, samples[k].spec_offset()));
    law_samples_decide_offset(samples, result->Ok_0 as int, samples[k].spec_offset());
}

/// Two calibrations without a failed reading succeed, and where the real time is `ahead` of
/// the monotonic clock in the quickest sample of both, their offsets differ by at most half
/// of what one of these samples took and half of what the other did, and so by less than
/// `limit` where both took less than that.
pub proof fn law_calibrations_agree(
    first: Seq<Result<(i64, i64), Errno>>,
    second: Seq<Result<(i64, i64), Errno>>,
    first_result: TimpaniResult<i64>,
    second_result: TimpaniResult<i64>,
    j: int,
    k: int,
    ahead: int,
    limit: int,
)
    requires
        calibrates_to(first, first_result),
        calibrates_to(second, second_result),
        forall|i: int| 0 <= i < first.len() ==> (#[trigger] first[i]) is Ok,
        forall|i: int| 0 <= i < second.len() ==> (#[trigger] second[i]) is Ok,
        is_quickest(samples_of(first), j),
        is_quickest(samples_of(second), k),
        samples_of(first)[j].agrees_with(ahead),
        samples_of(second)[k].agrees_with(ahead),
        samples_of(first)[j].spec_delta() < limit,
        samples_of(second)[k].spec_delta() < limit,
    ensures
        first_result is Ok,
        second_result is Ok,
        ({
            let apart = first_result->Ok_0 - second_result->Ok_0;
            let one = samples_of(first)[j].spec_delta();
            let other = samples_of(second)[k].spec_delta();
            &&& -((one + 1) / 2 + other / 2) <= apart <= one / 2 + (other + 1) / 2
            &&& -limit < apart < limit
        }),
{
    lemma_offset_is_near(samples_of(first)[j], ahead);
    lemma_offset_is_near(samples_of(second)[k], ahead);
    lemma_quickest_sample_counts(first, first_result, j);
    lemma_quickest_sample_counts(second, second_result, k);
}

/// Numbers are taken modulo 2^64: what fits 64 bits stays as it is, unsigned or signed, and
/// what does not is off by a multiple of 2^64.
pub proof fn law_numbers_that_fit_are_kept(x: int)
    ensures
        0 <= wrap(x) < 0x1_0000_0000_0000_0000,
        0 <= x < 0x1_0000_0000_0000_0000 ==> wrap(x) == x,
        wrap(x + 0x1_0000_0000_0000_0000) == wrap(x),
        i64::MIN <= wrap_signed(x) <= i64::MAX,
        i64::MIN <= x <= i64::MAX ==> wrap_signed(x) == x,
        wrap(wrap_signed(x)) == wrap(x),
{
}

/// Where the real time clock ran forward through a sample and no number leaves 63 bits, the
/// sample took the difference of the two real time readings, and its offset is their mean
/// less the monotonic reading.
pub proof fn law_offset_is_the_mean_less_the_monotonic_reading(sample: ClockSample)
    requires
        sample.before <= sample.after <= i64::MAX,
        sample.monotonic <= i64::MAX,
    ensures
        sample.spec_delta() == sample.after - sample.before,
        sample.spec_midpoint() == (sample.before + sample.after) / 2,
        2 * sample.spec_midpoint() <= sample.before + sample.after <= 2 * sample.spec_midpoint()
            + 1,
        sample.spec_offset() == (sample.before + sample.after) / 2 - sample.monotonic,
{
}

/// Where the real time clock ran forward through all samples, the offset of a calibration is
/// that of the sample with the least difference of its real time readings, and of the first
/// of them where several have it.
pub proof fn law_least_difference_decides(samples: Seq<ClockSample>, k: int, offset: int)
    requires
        0 <= k < samples.len(),
        forall|j: int|
            0 <= j < samples.len() ==> {
                let sample = #[trigger] samples[j];
                sample.before <= sample.after <= i64::MAX && sample.monotonic <= i64::MAX
            },
        forall|j: int|
            0 <= j < samples.len() ==> samples[k].after - samples[k].before <= (
            #[trigger] samples[j]).after - samples[j].before,
        forall|j: int|
            0 <= j < k ==> samples[k].after - samples[k].before < (#[trigger] samples[j]).after
                - samples[j].before,
    ensures
        is_calibrated_offset(samples, offset) <==> offset == (samples[k].before + samples[k].after)
            / 2 - samples[k].monotonic,
{
    assert forall|j: int| 0 <= j < samples.len() implies (#[trigger] samples[j]).spec_delta()
        == samples[j].after - samples[j].before by {
        law_offset_is_the_mean_less_the_monotonic_reading(samples[j]);
    }
    law_offset_is_the_mean_less_the_monotonic_reading(samples[k]);
    assert(is_quickest(samples, k));
    assert(samples[k].spec_delta() < u64::MAX);
    assert(is_calibrated_offset(samples, samples[k].spec_offset()));
    if is_calibrated_offset(samples, offset) {
        law_samples_decide_offset(samples, offset, samples[k].spec_offset());
    }
}

/// A sample that took 2^64 - 1 nanoseconds never counts, and where there is no other, or none
/// at all, the offset is 0.
pub proof fn law_without_a_usable_sample_the_offset_is_zero(samples: Seq<ClockSample>, offset: int)
    requires
        forall|j: int|
            0 <= j < samples.len() ==> wrap((#[trigger] samples[j]).after - samples[j].before)
                == u64::MAX,
    ensures
        is_calibrated_offset(samples, offset) <==> offset == 0,
{
    assert forall|j: int| 0 <= j < samples.len() implies (#[trigger] samples[j]).spec_delta()
        == u64::MAX by {}
}

/// A reading of so many seconds and nanoseconds is that many nanoseconds, and a failed one is
/// `Io`.
pub proof fn law_a_second_has_a_thousand_million_nanoseconds(sec: i64, nsec: i64, errno: Errno)
    ensures
        0 <= sec <= 18_000_000_000 && 0 <= nsec < 1_000_000_000 ==> reading_in_ns(
            Ok((sec, nsec)),
        ) is Ok && reading_in_ns(Ok((sec, nsec)))->Ok_0 == sec * 1_000_000_000 + nsec,
        reading_in_ns(Ok((sec, nsec))) is Ok,
        reading_in_ns(Err(errno)) == Err::<u64, TimpaniError>(TimpaniError::Io),
{
}

/// Each three readings make a sample, in the order in which they were made: the first is the
/// real time before, the second the monotonic clock, the third the real time after.
pub proof fn law_each_three_readings_make_a_sample(
    readings: Seq<Result<(i64, i64), Errno>>,
    i: int,
)
    requires
        0 <= i,
        3 * i + 2 < readings.len(),
        forall|j: int| 0 <= j < readings.len() ==> (#[trigger] readings[j]) is Ok,
    ensures
        samples_of(readings).len() == readings.len() / 3,
        reading_in_ns(readings[3 * i]) == Ok::<u64, TimpaniError>(samples_of(readings)[i].before),
        reading_in_ns(readings[3 * i + 1]) == Ok::<u64, TimpaniError>(
            samples_of(readings)[i].monotonic,
        ),
        reading_in_ns(readings[3 * i + 2]) == Ok::<u64, TimpaniError>(
            samples_of(readings)[i].after,
        ),
{
}

/// A calibration fails exactly where one of its readings did, and then with `Io`; and where
/// none did, its offset is the one that its samples decide.
pub proof fn law_calibration_fails_with_a_reading(
    readings: Seq<Result<(i64, i64), Errno>>,
    result: TimpaniResult<i64>,
)
    requires
        calibrates_to(readings, result),
    ensures
        result is Err <==> exists|i: int| 0 <= i < readings.len() && (#[trigger] readings[i]) is Err,
        result is Err ==> result == Err::<i64, TimpaniError>(TimpaniError::Io),
        result is Ok ==> is_calibrated_offset(samples_of(readings), result->Ok_0 as int),
{
}

/// A calibration makes 60 readings, and fewer only where the last of them failed; none before
/// the last failed. Every second of each three is of the monotonic clock, the others are of
/// the real time clock, and each is recorded as it was.
pub proof fn law_a_calibration_makes_sixty_readings(readings: Seq<Result<(i64, i64), Errno>>)
    ensures
        is_complete(readings) <==> {
            &&& readings.len() == 60 || (0 < readings.len() < 60 && readings[readings.len() - 1] is Err)
            &&& forall|i: int| 0 <= i < readings.len() - 1 ==> (#[trigger] readings[i]) is Ok
        },
        in_turn(readings).len() == readings.len(),
        forall|i: int|
            0 <= i < readings.len() ==> {
                &&& (#[trigger] in_turn(readings)[i]).1 == readings[i]
                &&& in_turn(readings)[i].0 == Clock::Monotonic <==> i % 3 == 1
            },
{
}

/// A calibration reads on exactly as long as no reading failed and there are fewer than 60,
/// and what it reads next is what the record has at that place.
pub proof fn law_a_calibration_reads_on(
    readings: Seq<Result<(i64, i64), Errno>>,
    reading: Result<(i64, i64), Errno>,
)
    ensures
        clock_after(readings) is Some <==> readings.len() < 60 && (readings.len() == 0
            || readings[readings.len() - 1] is Ok),
        clock_after(readings) is Some ==> (clock_after(readings) == Some(Clock::Monotonic)
            <==> readings.len() % 3 == 1),
        clock_after(readings) is Some ==> in_turn(readings.push(reading)) == in_turn(readings).push(
            (clock_after(readings)->Some_0, reading),
        ),
{
    assert(in_turn(readings.push(reading)) =~= in_turn(readings).push(
        (clock_at(readings.len() as int), reading),
    ));
}

/// A clock can show a time, or fail, only by a first reading of this clock that did.
pub proof fn law_a_shown_time_was_read(clock: Clock, nanos: u64)
    ensures
        can_show(clock, nanos) ==> exists|sec: i64, nsec: i64| #[trigger]
            read_in_turn(seq![(clock, Ok((sec, nsec)))]) && reading_in_ns(Ok((sec, nsec))) == Ok::<
                u64,
                TimpaniError,
            >(nanos),
        can_fail(clock) ==> exists|errno: Errno| #[trigger]
            read_in_turn(seq![(clock, Err::<(i64, i64), Errno>(errno))]),
{
    if can_show(clock, nanos) {
        let reading = choose|reading: Result<(i64, i64), Errno>| #[trigger]
            read_in_turn(seq![(clock, reading)]) && reading_in_ns(reading) == Ok::<
                u64,
                TimpaniError,
            >(nanos);
        let (sec, nsec) = reading->Ok_0;
        assert(reading == Ok::<(i64, i64), Errno>((sec, nsec)));
        assert(read_in_turn(seq![(clock, Ok((sec, nsec)))]));
    }
    if can_fail(clock) {
        let reading = choose|reading: Result<(i64, i64), Errno>| #[trigger]
            read_in_turn(seq![(clock, reading)]) && reading is Err;
        assert(reading == Err::<(i64, i64), Errno>(reading->Err_0));
        assert(read_in_turn(seq![(clock, Err::<(i64, i64), Errno>(reading->Err_0))]));
    }
}

/// Conversion adds the offset, forward or back, wherever the sum fits 64 bits, and the
/// opposite offset leads back.
pub proof fn law_conversion_adds_the_offset(timestamp: u64, offset: i64)
    ensures
        0 <= timestamp + offset < 0x1_0000_0000_0000_0000 ==> realtime_of(timestamp, offset as int)
            == timestamp + offset,
        0 <= realtime_of(timestamp, offset as int) < 0x1_0000_0000_0000_0000,
        realtime_of(realtime_of(timestamp, offset as int) as u64, -offset) == timestamp,
{
}

} // verus!
