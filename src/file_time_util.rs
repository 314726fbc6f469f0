use vstd::prelude::*;

use crate::calendar::utc_now;
use crate::errors::ZapError;
use crate::parsedate::{
    adjustment_digits, adjustment_seconds, adjustment_well_formed, all_digits, is_digit,
    parse_adjust,
};

verus! {

/// A point in time: whole seconds since the Unix epoch and a nanosecond part. The
/// derived order is the order in time.
#[derive(Clone, Copy, Debug, PartialEq, Eq, PartialOrd, Ord, Structural)]
pub struct AdjustableFileTime {
    pub seconds: i64,
    pub nanos: u32,
}

/// `t` moved by `delta` seconds, or `None` where the seconds leave the `i64` range.
pub open spec fn shifted(t: AdjustableFileTime, delta: int) -> Option<AdjustableFileTime> {
    if i64::MIN <= t.seconds + delta <= i64::MAX {
        Some(AdjustableFileTime { seconds: (t.seconds + delta) as i64, nanos: t.nanos })
    } else {
        None
    }
}

/// The error that a shift by `delta` reports when it leaves the representable range.
pub open spec fn shift_error(delta: int, e: ZapError) -> bool {
    if delta >= 0 {
        e is TimeAdjustmentOverflow
    } else {
        e is TimeAdjustmentUnderflow
    }
}

impl AdjustableFileTime {
    /// The time `seconds` after the Unix epoch, plus `nanos` nanoseconds.
    pub fn from_unix_time(seconds: i64, nanos: u32) -> (r: Self)
        ensures
            r.seconds == seconds,
            r.nanos == nanos,
    {
        AdjustableFileTime { seconds, nanos }
    }

    pub fn unix_seconds(&self) -> (r: i64)
        ensures
            r == self.seconds,
    {
        self.seconds
    }

    pub fn nanoseconds(&self) -> (r: u32)
        ensures
            r == self.nanos,
    {
        self.nanos
    }

    /// The current time of the system clock.
    pub fn now() -> (r: Self) {
        utc_now()
    }

    /// Moves the time by a signed number of seconds; the nanosecond part is kept.
    pub fn adjust_by_seconds(self, seconds: i64) -> (r: Result<Self, ZapError>)
        ensures
            r is Ok <==> shifted(self, seconds as int) is Some,
            r is Ok ==> Some(r->Ok_0) == shifted(self, seconds as int),
            r is Err ==> shift_error(seconds as int, r->Err_0),
    {
        match self.seconds.checked_add(seconds) {
            Some(s) => Ok(AdjustableFileTime { seconds: s, nanos: self.nanos }),
            None => {
                if seconds >= 0 {
                    Err(ZapError::TimeAdjustmentOverflow)
                } else {
                    Err(ZapError::TimeAdjustmentUnderflow)
                }
            },
        }
    }

    /// Moves the time by an adjustment string `[-][[hh]mm]SS`.
    pub fn adjust_by_string(self, adjustment_str: &str) -> (r: Result<Self, ZapError>)
        ensures
            !adjustment_well_formed(adjustment_str@) ==> (r matches Err(
                ZapError::TimeAdjustmentParse(input),
            ) && input@ == adjustment_str@),
            adjustment_well_formed(adjustment_str@) ==> {
                let d = adjustment_seconds(adjustment_str@);
                &&& r is Ok <==> shifted(self, d) is Some
                &&& r is Ok ==> Some(r->Ok_0) == shifted(self, d)
                &&& r is Err ==> shift_error(d, r->Err_0)
            },
    {
        match parse_adjust(adjustment_str) {
            Ok(seconds) => self.adjust_by_seconds(seconds as i64),
            Err(_) => Err(ZapError::TimeAdjustmentParse(String::from_str(adjustment_str))),
        }
    }
}

/// Which attributes a time update sets: absence means "leave that attribute alone".
#[derive(Clone, Copy, Debug, PartialEq, Eq, Structural)]
pub struct FileTimeSpec {
    pub atime: Option<AdjustableFileTime>,
    pub mtime: Option<AdjustableFileTime>,
}

/// `t` moved by `delta` seconds, an absent time staying absent.
pub open spec fn shifted_opt(t: Option<AdjustableFileTime>, delta: int) -> Option<
    Option<AdjustableFileTime>,
> {
    match t {
        None => Some(None),
        Some(x) => match shifted(x, delta) {
            Some(y) => Some(Some(y)),
            None => None,
        },
    }
}

/// Every present time of `spec` moved by `delta` seconds; `None` where one of them
/// leaves the representable range.
pub open spec fn shifted_spec(spec: FileTimeSpec, delta: int) -> Option<FileTimeSpec> {
    match (shifted_opt(spec.atime, delta), shifted_opt(spec.mtime, delta)) {
        (Some(a), Some(m)) => Some(FileTimeSpec { atime: a, mtime: m }),
        _ => None,
    }
}

/// `spec` with the times that are not to be set cleared.
pub open spec fn flagged(spec: FileTimeSpec, set_access: bool, set_modification: bool) -> FileTimeSpec {
    FileTimeSpec {
        atime: if set_access { spec.atime } else { None },
        mtime: if set_modification { spec.mtime } else { None },
    }
}

/// How a time specification is carried out on a file.
#[derive(Clone, Copy, Debug, PartialEq, Eq, Structural)]
pub enum TimeUpdate {
    /// One combined update of both times.
    Both { atime: AdjustableFileTime, mtime: AdjustableFileTime },
    AccessOnly { atime: AdjustableFileTime },
    ModificationOnly { mtime: AdjustableFileTime },
    Nothing,
}

/// The update that sets exactly the present times of `spec`.
pub open spec fn time_update_of(spec: FileTimeSpec) -> TimeUpdate {
    match (spec.atime, spec.mtime) {
        (Some(a), Some(m)) => TimeUpdate::Both { atime: a, mtime: m },
        (Some(a), None) => TimeUpdate::AccessOnly { atime: a },
        (None, Some(m)) => TimeUpdate::ModificationOnly { mtime: m },
        (None, None) => TimeUpdate::Nothing,
    }
}

impl FileTimeSpec {
    /// Both times set to `time`.
    pub fn both(time: AdjustableFileTime) -> (r: Self)
        ensures
            r == (FileTimeSpec { atime: Some(time), mtime: Some(time) }),
    {
        FileTimeSpec { atime: Some(time), mtime: Some(time) }
    }

    /// Only the access time, set to `time`.
    pub fn access_only(time: AdjustableFileTime) -> (r: Self)
        ensures
            r == (FileTimeSpec { atime: Some(time), mtime: None }),
    {
        FileTimeSpec { atime: Some(time), mtime: None }
    }

    /// Only the modification time, set to `time`.
    pub fn modification_only(time: AdjustableFileTime) -> (r: Self)
        ensures
            r == (FileTimeSpec { atime: None, mtime: Some(time) }),
    {
        FileTimeSpec { atime: None, mtime: Some(time) }
    }

    /// The times of a reference file, which may differ from each other.
    pub fn from_times(atime: AdjustableFileTime, mtime: AdjustableFileTime) -> (r: Self)
        ensures
            r == (FileTimeSpec { atime: Some(atime), mtime: Some(mtime) }),
    {
        FileTimeSpec { atime: Some(atime), mtime: Some(mtime) }
    }

    /// Both times set to the current time.
    pub fn now() -> (r: Self)
        ensures
            r.atime is Some,
            r.atime == r.mtime,
    {
        Self::both(AdjustableFileTime::now())
    }

    /// Clears the times that are not to be set.
    pub fn with_flags(self, set_access: bool, set_modification: bool) -> (r: Self)
        ensures
            r == flagged(self, set_access, set_modification),
    {
        let mut r = self;
        if !set_access {
            r.atime = None;
        }
        if !set_modification {
            r.mtime = None;
        }
        r
    }

    /// Whether any time is set.
    pub fn has_any_time(&self) -> (r: bool)
        ensures
            r == (self.atime is Some || self.mtime is Some),
    {
        self.atime.is_some() || self.mtime.is_some()
    }

    /// Moves every present time by `seconds`; an absent time stays absent.
    pub fn adjust_by_seconds(self, seconds: i64) -> (r: Result<Self, ZapError>)
        ensures
            r is Ok <==> shifted_spec(self, seconds as int) is Some,
            r is Ok ==> Some(r->Ok_0) == shifted_spec(self, seconds as int),
            r is Err ==> shift_error(seconds as int, r->Err_0),
    {
        let atime = match self.atime {
            Some(t) => Some(t.adjust_by_seconds(seconds)?),
            None => None,
        };
        let mtime = match self.mtime {
            Some(t) => Some(t.adjust_by_seconds(seconds)?),
            None => None,
        };
        Ok(FileTimeSpec { atime, mtime })
    }

    /// Moves every present time by an adjustment string `[-][[hh]mm]SS`.
    pub fn adjust_by_string(self, adjustment_str: &str) -> (r: Result<Self, ZapError>)
        ensures
            !adjustment_well_formed(adjustment_str@) ==> (r matches Err(
                ZapError::TimeAdjustmentParse(input),
            ) && input@ == adjustment_str@),
            adjustment_well_formed(adjustment_str@) ==> {
                let d = adjustment_seconds(adjustment_str@);
                &&& r is Ok <==> shifted_spec(self, d) is Some
                &&& r is Ok ==> Some(r->Ok_0) == shifted_spec(self, d)
                &&& r is Err ==> shift_error(d, r->Err_0)
            },
    {
        match parse_adjust(adjustment_str) {
            Ok(seconds) => self.adjust_by_seconds(seconds as i64),
            Err(_) => Err(ZapError::TimeAdjustmentParse(String::from_str(adjustment_str))),
        }
    }

    /// The update that sets exactly the present times, both in one step when both are present.
    pub fn time_update(&self) -> (r: TimeUpdate)
        ensures
            r == time_update_of(*self),
    {
        match (self.atime, self.mtime) {
            (Some(a), Some(m)) => TimeUpdate::Both { atime: a, mtime: m },
            (Some(a), None) => TimeUpdate::AccessOnly { atime: a },
            (None, Some(m)) => TimeUpdate::ModificationOnly { mtime: m },
            (None, None) => TimeUpdate::Nothing,
        }
    }
}

/// The times of a file re-read just before an adjustment, limited to the selected
/// attributes and moved by the adjustment string.
pub fn adjusted_times(
    current: FileTimeSpec,
    adjustment_str: &str,
    set_access: bool,
    set_modification: bool,
) -> (r: Result<FileTimeSpec, ZapError>)
    ensures
        !adjustment_well_formed(adjustment_str@) ==> (r matches Err(
            ZapError::TimeAdjustmentParse(input),
        ) && input@ == adjustment_str@),
        adjustment_well_formed(adjustment_str@) ==> {
            let d = adjustment_seconds(adjustment_str@);
            let selected = flagged(current, set_access, set_modification);
            &&& r is Ok <==> shifted_spec(selected, d) is Some
            &&& r is Ok ==> Some(r->Ok_0) == shifted_spec(selected, d)
            &&& r is Err ==> shift_error(d, r->Err_0)
        },
{
    current.with_flags(set_access, set_modification).adjust_by_string(adjustment_str)
}

/// Moving a time by `a` and then by `b` lands where one move by `a + b` lands.
pub proof fn lemma_shift_twice(t: AdjustableFileTime, a: int, b: int)
    requires
        shifted(t, a) is Some,
        shifted(shifted(t, a)->Some_0, b) is Some,
    ensures
        shifted(t, a + b) == shifted(shifted(t, a)->Some_0, b),
{
}

/// Adjusting a time specification twice equals adjusting it once by the summed delta.
pub proof fn lemma_spec_shift_twice(spec: FileTimeSpec, a: int, b: int)
    requires
        shifted_spec(spec, a) is Some,
        shifted_spec(shifted_spec(spec, a)->Some_0, b) is Some,
    ensures
        shifted_spec(spec, a + b) == shifted_spec(shifted_spec(spec, a)->Some_0, b),
{
}

/// Two adjustment strings applied one after the other act as one adjustment by the
/// sum of the seconds they stand for.
pub proof fn lemma_adjust_strings_twice(spec: FileTimeSpec, first: Seq<char>, second: Seq<char>)
    requires
        adjustment_well_formed(first),
        adjustment_well_formed(second),
        shifted_spec(spec, adjustment_seconds(first)) is Some,
        shifted_spec(shifted_spec(spec, adjustment_seconds(first))->Some_0, adjustment_seconds(second)) is Some,
    ensures
        shifted_spec(spec, adjustment_seconds(first) + adjustment_seconds(second)) == shifted_spec(
            shifted_spec(spec, adjustment_seconds(first))->Some_0,
            adjustment_seconds(second),
        ),
{
    lemma_spec_shift_twice(spec, adjustment_seconds(first), adjustment_seconds(second));
}

/// An adjustment of a file's current times with only the access time selected sets
/// the access time to exactly the old one moved by the adjustment, and makes an update
/// of the access time alone: the modification time is left as it is.
pub proof fn lemma_access_only_adjustment(current: FileTimeSpec, adjustment: Seq<char>)
    requires
        adjustment_well_formed(adjustment),
        current.atime is Some,
        shifted(current.atime->Some_0, adjustment_seconds(adjustment)) is Some,
    ensures
        ({
            let a = current.atime->Some_0;
            let moved = AdjustableFileTime {
                seconds: (a.seconds + adjustment_seconds(adjustment)) as i64,
                nanos: a.nanos,
            };
            let adjusted = shifted_spec(
                flagged(current, true, false),
                adjustment_seconds(adjustment),
            );
            &&& adjusted == Some(FileTimeSpec { atime: Some(moved), mtime: None })
            &&& time_update_of(adjusted->Some_0) == TimeUpdate::AccessOnly { atime: moved }
        }),
{
}

/// `010000` stands for one hour.
pub proof fn lemma_one_hour_adjustment()
    ensures
        adjustment_well_formed(seq!['0', '1', '0', '0', '0', '0']),
        adjustment_seconds(seq!['0', '1', '0', '0', '0', '0']) == 3600,
{
    let s = seq!['0', '1', '0', '0', '0', '0'];
    assert(adjustment_digits(s) == s);
    assert(all_digits(s)) by {
        assert forall|i: int| 0 <= i < s.len() implies #[trigger] is_digit(s[i]) by {}
    }
}

/// Selecting the access time alone clears the modification time, whatever it held.
pub proof fn lemma_access_selection_clears_modification(spec: FileTimeSpec)
    ensures
        flagged(spec, true, false).mtime is None,
        flagged(spec, true, false).atime == spec.atime,
{
}

/// Selecting the same attributes twice is the same as selecting them once.
pub proof fn lemma_flags_idempotent(spec: FileTimeSpec, set_access: bool, set_modification: bool)
    ensures
        flagged(flagged(spec, set_access, set_modification), set_access, set_modification)
            == flagged(spec, set_access, set_modification),
{
}

/// Two selections in a row keep the attributes that both keep, in either order.
pub proof fn lemma_flags_commute(spec: FileTimeSpec, a1: bool, m1: bool, a2: bool, m2: bool)
    ensures
        flagged(flagged(spec, a1, m1), a2, m2) == flagged(flagged(spec, a2, m2), a1, m1),
        flagged(flagged(spec, a1, m1), a2, m2) == flagged(spec, a1 && a2, m1 && m2),
{
}

/// Selecting attributes before or after an adjustment gives the same times.
pub proof fn lemma_flags_commute_with_shift(
    spec: FileTimeSpec,
    delta: int,
    set_access: bool,
    set_modification: bool,
)
    requires
        shifted_spec(spec, delta) is Some,
    ensures
        shifted_spec(flagged(spec, set_access, set_modification), delta) == Some(
            flagged(shifted_spec(spec, delta)->Some_0, set_access, set_modification),
        ),
{
}

} // verus!
