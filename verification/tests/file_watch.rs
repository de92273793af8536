use helix_anywhere::file_watch::{
    FileProbe, FileWatch, WatchVerdict, WATCH_GRACE_MS, WATCH_POLL_MS, WATCH_TIMEOUT_MS,
};

const BASELINE: u128 = 1_700_000_000_000_000_000;
const ONE_MS: u128 = 1_000_000;

/// Runs a watch against a clock on which every wait takes exactly as long as
/// asked, and a file that is saved at `changed_at` milliseconds, if at all.
/// Gives the verdict that ends the watch, and the time at which it came.
fn run(changed_at: Option<u64>) -> (WatchVerdict, u64) {
    let watch = FileWatch::new(BASELINE);
    let mut now = watch.grace();
    loop {
        let probe = match changed_at {
            Some(at) if now >= at => FileProbe::Modified(BASELINE + ONE_MS),
            _ => FileProbe::Modified(BASELINE),
        };
        match watch.check(now, probe) {
            WatchVerdict::Wait { millis } => now += millis,
            verdict => return (verdict, now),
        }
    }
}

#[test]
fn the_watch_waits_half_a_second_then_looks_every_tenth_for_an_hour() {
    assert_eq!(WATCH_GRACE_MS, 500);
    assert_eq!(WATCH_POLL_MS, 100);
    assert_eq!(WATCH_TIMEOUT_MS, 3_600_000);
    let watch = FileWatch::new(BASELINE);
    assert_eq!(watch.grace(), 500);
    assert_eq!(watch.baseline(), BASELINE);
}

#[test]
fn a_save_is_seen_at_the_first_look_after_it() {
    assert_eq!(run(Some(0)), (WatchVerdict::Changed, 500));
    assert_eq!(run(Some(500)), (WatchVerdict::Changed, 500));
    assert_eq!(run(Some(501)), (WatchVerdict::Changed, 600));
    assert_eq!(run(Some(2_345)), (WatchVerdict::Changed, 2_400));
    assert_eq!(run(Some(60_000)), (WatchVerdict::Changed, 60_000));
    for changed_at in [1u64, 499, 650, 1_000, 10_001, 123_456, 3_599_999, 3_600_000] {
        let (verdict, seen_at) = run(Some(changed_at));
        assert_eq!(verdict, WatchVerdict::Changed);
        assert!(seen_at >= changed_at);
        assert!(seen_at < changed_at + 100 || seen_at == 500);
        assert!(seen_at <= 3_600_000);
    }
}

#[test]
fn a_file_that_is_never_saved_times_out_at_the_hour() {
    let (verdict, at) = run(None);
    assert_eq!(verdict, WatchVerdict::TimedOut);
    assert_eq!(at, 3_600_100);
    assert!(at > WATCH_TIMEOUT_MS && at <= WATCH_TIMEOUT_MS + WATCH_POLL_MS);
}

#[test]
fn a_save_after_the_hour_is_not_seen() {
    assert_eq!(run(Some(3_600_001)), (WatchVerdict::TimedOut, 3_600_100));
}

#[test]
fn the_time_limit_is_passed_only_by_more_than_the_hour() {
    let watch = FileWatch::new(BASELINE);
    let same = FileProbe::Modified(BASELINE);
    let later = FileProbe::Modified(BASELINE + 1);
    assert_eq!(watch.check(3_600_000, same), WatchVerdict::Wait { millis: 100 });
    assert_eq!(watch.check(3_600_000, later), WatchVerdict::Changed);
    assert_eq!(watch.check(3_600_001, same), WatchVerdict::TimedOut);
    assert_eq!(watch.check(3_600_001, later), WatchVerdict::TimedOut);
    assert_eq!(watch.check(3_600_001, FileProbe::Missing), WatchVerdict::TimedOut);
    assert_eq!(watch.check(u64::MAX, later), WatchVerdict::TimedOut);
}

#[test]
fn only_a_later_modification_time_counts_as_a_save() {
    let watch = FileWatch::new(BASELINE);
    assert_eq!(watch.check(500, FileProbe::Modified(BASELINE + 1)), WatchVerdict::Changed);
    assert_eq!(watch.check(500, FileProbe::Modified(BASELINE + ONE_MS)), WatchVerdict::Changed);
    assert_eq!(watch.check(500, FileProbe::Modified(u128::MAX)), WatchVerdict::Changed);
    assert_eq!(
        watch.check(500, FileProbe::Modified(BASELINE)),
        WatchVerdict::Wait { millis: 100 }
    );
    assert_eq!(
        watch.check(500, FileProbe::Modified(BASELINE - 1)),
        WatchVerdict::Wait { millis: 100 }
    );
    assert_eq!(watch.check(500, FileProbe::Modified(0)), WatchVerdict::Wait { millis: 100 });
}

#[test]
fn a_file_that_is_gone_ends_the_watch() {
    let watch = FileWatch::new(BASELINE);
    assert_eq!(watch.check(0, FileProbe::Missing), WatchVerdict::Vanished);
    assert_eq!(watch.check(3_600_000, FileProbe::Missing), WatchVerdict::Vanished);
}

#[test]
fn a_file_whose_time_cannot_be_read_is_looked_at_again() {
    let watch = FileWatch::new(BASELINE);
    assert_eq!(watch.check(500, FileProbe::Unreadable), WatchVerdict::Wait { millis: 100 });
    assert_eq!(watch.check(3_600_001, FileProbe::Unreadable), WatchVerdict::TimedOut);
}
