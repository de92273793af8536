//! Detecting the end of an edit by watching the scratch file: the file is
//! looked at in fixed intervals until its modification time moves past the
//! time recorded before the launch, the file is gone, or an hour has passed.

use crate::elapsed::{lemma_rounding_keeps_limits, millis_up_of};
use vstd::prelude::*;

verus! {

/// How long the watch waits before its first look, in milliseconds, so that
/// the terminal has opened the file.
pub const WATCH_GRACE_MS: u64 = 500;

/// How long the watch waits between two looks, in milliseconds.
pub const WATCH_POLL_MS: u64 = 100;

/// After how long the watch gives up, in milliseconds: one hour.
pub const WATCH_TIMEOUT_MS: u64 = 3_600_000;

/// What a look at the scratch file shows.
#[derive(Debug, Clone, Copy, PartialEq, Eq, Structural)]
pub enum FileProbe {
    /// The file is gone.
    Missing,
    /// The file is there, but its modification time cannot be read.
    Unreadable,
    /// The file is there, with this modification time, counted in
    /// nanoseconds from a fixed origin.
    Modified(u128),
}

/// What the watch makes of a look.
#[derive(Debug, Clone, Copy, PartialEq, Eq, Structural)]
pub enum WatchVerdict {
    /// The file was saved: the edit is finished.
    Changed,
    /// The file is gone: the watch ends, and reading the file will fail.
    Vanished,
    /// The time is up.
    TimedOut,
    /// Nothing yet: wait this long, in milliseconds, and look again.
    Wait { millis: u64 },
}

/// What the watch makes of a look, given the modification time recorded
/// before the launch, the time since the watch began in whole milliseconds
/// (rounded up, as `millis_up` gives it),
/// and what the look shows. The time limit is tested first, and is passed
/// only by more than the full hour.
pub open spec fn verdict_of(baseline: u128, elapsed_ms: u64, probe: FileProbe) -> WatchVerdict {
    if elapsed_ms > WATCH_TIMEOUT_MS {
        WatchVerdict::TimedOut
    } else {
        match probe {
            FileProbe::Missing => WatchVerdict::Vanished,
            FileProbe::Unreadable => WatchVerdict::Wait { millis: WATCH_POLL_MS },
            FileProbe::Modified(time) => if time > baseline {
                WatchVerdict::Changed
            } else {
                WatchVerdict::Wait { millis: WATCH_POLL_MS }
            },
        }
    }
}

/// When the look with a given number is made, in milliseconds since the
/// watch began, if every wait takes exactly as long as asked: the first look
/// has number 0.
pub open spec fn look_time(number: nat) -> nat {
    WATCH_GRACE_MS as nat + number * WATCH_POLL_MS as nat
}

/// A watch on the scratch file.
#[derive(Debug, Clone, Copy)]
pub struct FileWatch {
    baseline: u128,
}

impl View for FileWatch {
    type V = u128;

    closed spec fn view(&self) -> u128 {
        self.baseline
    }
}

impl FileWatch {
    /// A watch for a file whose modification time before the launch was
    /// `baseline`, in nanoseconds from a fixed origin.
    pub fn new(baseline: u128) -> (watch: Self)
        ensures
            watch@ == baseline,
    {
        FileWatch { baseline }
    }

    /// The modification time recorded before the launch.
    pub fn baseline(&self) -> (baseline: u128)
        ensures
            baseline == self@,
    {
        self.baseline
    }

    /// How long to wait before the first look, in milliseconds.
    pub fn grace(&self) -> (millis: u64)
        ensures
            millis == WATCH_GRACE_MS,
    {
        WATCH_GRACE_MS
    }

    /// What the watch makes of a look, `elapsed_ms` whole milliseconds after
    /// it began.
    pub fn check(&self, elapsed_ms: u64, probe: FileProbe) -> (verdict: WatchVerdict)
        ensures
            verdict == verdict_of(self@, elapsed_ms, probe),
    {
        if elapsed_ms > WATCH_TIMEOUT_MS {
            return WatchVerdict::TimedOut;
        }
        match probe {
            FileProbe::Missing => WatchVerdict::Vanished,
            FileProbe::Unreadable => WatchVerdict::Wait { millis: WATCH_POLL_MS },
            FileProbe::Modified(time) => {
                if time > self.baseline {
                    WatchVerdict::Changed
                } else {
                    WatchVerdict::Wait { millis: WATCH_POLL_MS }
                }
            },
        }
    }
}

/// What a look shows of a file that is saved once, `changed_at` milliseconds
/// after the watch began: the recorded time before that, a later time from
/// then on.
pub open spec fn saved_once(baseline: u128, later: u128, changed_at: nat, time: nat) -> FileProbe {
    if time >= changed_at {
        FileProbe::Modified(later)
    } else {
        FileProbe::Modified(baseline)
    }
}

/// A file that is saved once within the hour is seen at the first look at or
/// after the save, and not before: every earlier look asks to wait, and that
/// look says `Changed`. It comes less than one interval after the save,
/// unless the save came before the first look.
pub proof fn lemma_change_is_detected(baseline: u128, later: u128, changed_at: nat, number: nat)
    requires
        later > baseline,
        look_time(number) <= WATCH_TIMEOUT_MS,
        look_time(number) >= changed_at,
        number > 0 ==> look_time((number - 1) as nat) < changed_at,
    ensures
        verdict_of(
            baseline,
            look_time(number) as u64,
            saved_once(baseline, later, changed_at, look_time(number)),
        ) == WatchVerdict::Changed,
        forall|earlier: nat|
            earlier < number ==> verdict_of(
                baseline,
                #[trigger] look_time(earlier) as u64,
                saved_once(baseline, later, changed_at, look_time(earlier)),
            ) == (WatchVerdict::Wait { millis: WATCH_POLL_MS }),
        number > 0 ==> look_time(number) < changed_at + WATCH_POLL_MS,
{
    assert forall|earlier: nat| earlier < number implies verdict_of(
        baseline,
        #[trigger] look_time(earlier) as u64,
        saved_once(baseline, later, changed_at, look_time(earlier)),
    ) == (WatchVerdict::Wait { millis: WATCH_POLL_MS }) by {
        assert(look_time(earlier) <= look_time((number - 1) as nat)) by (nonlinear_arith)
            requires
                earlier <= number - 1,
        ;
    }
}

/// A file that is never saved makes every look within the hour ask to wait,
/// and every look after the hour say `TimedOut`; the first such look comes
/// no more than one interval after the hour.
pub proof fn lemma_no_change_times_out(baseline: u128, number: nat)
    requires
        look_time(number) <= u64::MAX,
    ensures
        look_time(number) <= WATCH_TIMEOUT_MS ==> verdict_of(
            baseline,
            look_time(number) as u64,
            FileProbe::Modified(baseline),
        ) == (WatchVerdict::Wait { millis: WATCH_POLL_MS }),
        look_time(number) > WATCH_TIMEOUT_MS ==> verdict_of(
            baseline,
            look_time(number) as u64,
            FileProbe::Modified(baseline),
        ) == WatchVerdict::TimedOut,
        look_time(number) > WATCH_TIMEOUT_MS && (number == 0 || look_time((number - 1) as nat)
            <= WATCH_TIMEOUT_MS) ==> look_time(number) <= WATCH_TIMEOUT_MS + WATCH_POLL_MS,
{
}

/// `Changed` is said only of a look that shows a modification time after the
/// recorded one, and only within the hour.
pub proof fn lemma_changed_means_saved(baseline: u128, elapsed_ms: u64, probe: FileProbe)
    requires
        verdict_of(baseline, elapsed_ms, probe) == WatchVerdict::Changed,
    ensures
        elapsed_ms <= WATCH_TIMEOUT_MS,
        probe matches FileProbe::Modified(time) && time > baseline,
{
}

/// With the time rounded up to whole milliseconds, the watch times out
/// exactly when more than the hour has passed, by however little.
pub proof fn lemma_timeout_is_exact(baseline: u128, nanos: u128, probe: FileProbe)
    ensures
        verdict_of(baseline, millis_up_of(nanos), probe) == WatchVerdict::TimedOut
            <==> nanos as int > WATCH_TIMEOUT_MS as int * 1_000_000,
{
    lemma_rounding_keeps_limits(nanos, WATCH_TIMEOUT_MS);
}

} // verus!
