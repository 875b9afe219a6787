use vstd::prelude::*;

verus! {

/// A file's last-modified instant: whole seconds and nanoseconds since the Unix epoch.
#[derive(Clone, Copy, Debug, PartialEq, Eq, Structural)]
pub struct FileTime {
    pub secs: u64,
    pub nanos: u32,
}

impl FileTime {
    /// `self` is equal to or later than `other`.
    pub open spec fn at_or_after(self, other: FileTime) -> bool {
        self.secs > other.secs || (self.secs == other.secs && self.nanos >= other.nanos)
    }

    /// Executable form of `at_or_after`.
    pub fn is_at_or_after(&self, other: &FileTime) -> (r: bool)
        ensures
            r == self.at_or_after(*other),
    {
        self.secs > other.secs || (self.secs == other.secs && self.nanos >= other.nanos)
    }
}

/// The input at `i` forces a rebuild: its time is unknown, or not strictly
/// before the output's time.
pub open spec fn input_not_older(out: FileTime, input: Option<FileTime>) -> bool {
    match input {
        None => true,
        Some(t) => t.at_or_after(out),
    }
}

/// Some input forces a rebuild of an output whose time is `out`.
pub open spec fn any_input_not_older(out: FileTime, in_times: Seq<Option<FileTime>>) -> bool {
    exists|i: int| 0 <= i < in_times.len() && #[trigger] input_not_older(out, in_times[i])
}

/// The output is stale: its own time is unknown, or some input's time is
/// unknown or equal to or later than it.
pub open spec fn is_stale(out_time: Option<FileTime>, in_times: Seq<Option<FileTime>>) -> bool {
    match out_time {
        None => true,
        Some(out) => any_input_not_older(out, in_times),
    }
}

/// Decides staleness of an output from its time and its inputs' times; an
/// absent time always counts toward rebuilding, and a tie counts as newer.
pub fn is_any_input_newer_then_output(
    out_time: Option<FileTime>,
    in_times: &Vec<Option<FileTime>>,
) -> (r: bool)
    ensures
        r == is_stale(out_time, in_times@),
{
    let out = match out_time {
        None => return true,
        Some(t) => t,
    };
    let mut i: usize = 0;
    while i < in_times.len()
        invariant
            i <= in_times.len(),
            out_time == Some(out),
            forall|j: int| 0 <= j < i ==> !#[trigger] input_not_older(out, in_times@[j]),
        decreases in_times.len() - i,
    {
        let cur: Option<FileTime> = in_times[i];
        let stale = match cur {
            None => true,
            Some(t) => t.is_at_or_after(&out),
        };
        if stale {
            assert(input_not_older(out, in_times@[i as int]));
            return true;
        }
        i = i + 1;
    }
    false
}

} // verus!
