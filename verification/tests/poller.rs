use pciewatch::config::Config;
use pciewatch::level::Level;
use pciewatch::poller::{
    drain_commands, init_failed, log, next_level, pstate_name, started_line, Command,
    PerformanceState, Poller, ProbeError, Sample, UiEvent, WAKE_MS,
};

fn sample(gen: u32, width: u32, util: u32) -> Sample {
    Sample {
        gen,
        width,
        util,
        pstate: PerformanceState::Zero,
    }
}

fn cfg() -> Config {
    // Defaults: baseline Gen3 x16, debounce 3, util threshold 20
    Config::default()
}

#[test]
fn full_link_idle_is_normal() {
    assert_eq!(
        next_level(&cfg(), &sample(3, 16, 0), 0),
        (Level::Normal, 0)
    );
}

#[test]
fn speed_drop_under_load_is_warn() {
    assert_eq!(next_level(&cfg(), &sample(2, 16, 50), 0), (Level::Warn, 0));
}

#[test]
fn speed_drop_while_idle_is_normal() {
    // Power-management artifact: gen dips at idle are not alarmed.
    assert_eq!(
        next_level(&cfg(), &sample(2, 16, 10), 0),
        (Level::Normal, 0)
    );
}

#[test]
fn width_drop_debounces_to_degraded() {
    let (l1, b1) = next_level(&cfg(), &sample(3, 4, 0), 0);
    let (l2, b2) = next_level(&cfg(), &sample(3, 4, 0), b1);
    let (l3, b3) = next_level(&cfg(), &sample(3, 4, 0), b2);
    assert_eq!(
        (l1, l2, l3),
        (Level::Warn, Level::Warn, Level::Degraded)
    );
    assert_eq!(b3, 3);
}

#[test]
fn width_recovery_resets_debounce() {
    let (_, b) = next_level(&cfg(), &sample(3, 4, 0), 2); // 3rd low sample -> Degraded
    let (l, b2) = next_level(&cfg(), &sample(3, 16, 0), b);
    assert_eq!((l, b2), (Level::Normal, 0));
    // Next width drop starts the debounce count over from one.
    assert_eq!(next_level(&cfg(), &sample(3, 4, 0), b2), (Level::Warn, 1));
}

#[test]
fn exact_baseline_gen_while_active_is_normal() {
    // gen == baseline is healthy; only gen < baseline while busy warns.
    assert_eq!(
        next_level(&cfg(), &sample(3, 16, 99), 0),
        (Level::Normal, 0)
    );
}

#[test]
fn utilization_at_the_threshold_is_active() {
    assert_eq!(next_level(&cfg(), &sample(2, 16, 20), 5), (Level::Warn, 0));
    assert_eq!(
        next_level(&cfg(), &sample(2, 16, 19), 5),
        (Level::Normal, 0)
    );
}

#[test]
fn low_width_count_saturates() {
    assert_eq!(
        next_level(&cfg(), &sample(3, 8, 0), u32::MAX),
        (Level::Degraded, u32::MAX)
    );
}

#[test]
fn wider_and_faster_than_baseline_is_normal() {
    assert_eq!(
        next_level(&cfg(), &sample(5, 32, 100), 0),
        (Level::Normal, 0)
    );
}

#[test]
fn pstates_have_short_names() {
    assert_eq!(pstate_name(&PerformanceState::Zero), "P0");
    assert_eq!(pstate_name(&PerformanceState::Eight), "P8");
    assert_eq!(pstate_name(&PerformanceState::Eleven), "P11");
    assert_eq!(pstate_name(&PerformanceState::Twelve), "P?");
    assert_eq!(pstate_name(&PerformanceState::Unknown), "P?");
    assert_eq!(PerformanceState::Fifteen.name(), "Fifteen");
}

#[test]
fn pstate_words_are_the_variant_names() {
    let all = [
        PerformanceState::Zero,
        PerformanceState::One,
        PerformanceState::Two,
        PerformanceState::Three,
        PerformanceState::Four,
        PerformanceState::Five,
        PerformanceState::Six,
        PerformanceState::Seven,
        PerformanceState::Eight,
        PerformanceState::Nine,
        PerformanceState::Ten,
        PerformanceState::Eleven,
        PerformanceState::Twelve,
        PerformanceState::Thirteen,
        PerformanceState::Fourteen,
        PerformanceState::Fifteen,
        PerformanceState::Unknown,
    ];
    for p in all {
        assert_eq!(p.name(), format!("{p:?}"));
    }
    for l in [Level::Normal, Level::Warn, Level::Degraded, Level::Lost] {
        assert_eq!(l.name(), format!("{l:?}"));
    }
}

#[test]
fn last_baseline_wins() {
    let mut c = cfg();
    let lines = drain_commands(
        &vec![
            Command::SetBaseline { gen: 3, width: 16 },
            Command::SetBaseline { gen: 4, width: 16 },
            Command::SetBaseline { gen: 4, width: 16 },
            Command::SetBaseline { gen: 5, width: 8 },
        ],
        &mut c,
    );
    assert_eq!(
        lines,
        vec![
            "baseline updated to Gen4 x16".to_string(),
            "baseline updated to Gen5 x8".to_string(),
        ]
    );
    assert_eq!(
        c,
        Config {
            baseline_gen: 5,
            baseline_width: 8,
            ..cfg()
        }
    );
}

#[test]
fn no_commands_change_nothing() {
    let mut c = cfg();
    assert!(drain_commands(&vec![], &mut c).is_empty());
    assert_eq!(c, cfg());
}

#[test]
fn commands_in_portions_come_to_the_same() {
    let a = Command::SetBaseline { gen: 1, width: 2 };
    let b = Command::SetBaseline { gen: 3, width: 4 };
    let mut whole = cfg();
    let lines = drain_commands(&vec![a, b], &mut whole);
    let mut parts = cfg();
    let mut part_lines = drain_commands(&vec![a], &mut parts);
    part_lines.extend(drain_commands(&vec![b], &mut parts));
    assert_eq!(whole, parts);
    assert_eq!(lines, part_lines);
}

#[test]
fn readings_keep_their_errors() {
    assert_eq!(
        pciewatch::poller::sample(1, Ok(sample(3, 16, 7))),
        Ok(sample(3, 16, 7))
    );
    assert_eq!(
        pciewatch::poller::sample(12, Err(ProbeError::NotFound("no such thing".to_string()))),
        Err("gpu 12 not found: no such thing".to_string())
    );
    assert_eq!(
        pciewatch::poller::sample(0, Err(ProbeError::Query("timeout".to_string()))),
        Err("timeout".to_string())
    );
}

#[test]
fn only_level_changes_are_logged() {
    let mut p = Poller::new(cfg());
    let (line, event) = p.step(Ok(sample(3, 16, 0)));
    assert_eq!(
        line,
        Some("level change: start -> Normal (gen=3 width=16 util=0% pstate=Zero)".to_string())
    );
    assert!(matches!(event, UiEvent::Sample(s, Level::Normal) if s == sample(3, 16, 0)));
    for _ in 0..5 {
        let (line, _) = p.step(Ok(sample(3, 16, 0)));
        assert_eq!(line, None);
    }
    let (line, event) = p.step(Ok(sample(1, 4, 3)));
    assert_eq!(
        line,
        Some("level change: Normal -> Warn (gen=1 width=4 util=3% pstate=Zero)".to_string())
    );
    assert!(matches!(event, UiEvent::Sample(_, Level::Warn)));
    let (line, _) = p.step(Ok(sample(1, 4, 3)));
    assert_eq!(line, None);
    let (line, event) = p.step(Ok(sample(1, 4, 3)));
    assert_eq!(
        line,
        Some("level change: Warn -> Degraded (gen=1 width=4 util=3% pstate=Zero)".to_string())
    );
    assert!(matches!(event, UiEvent::Sample(_, Level::Degraded)));
}

#[test]
fn failed_reading_keeps_the_state() {
    let mut p = Poller::new(cfg());
    p.step(Ok(sample(3, 4, 0)));
    let before = p;
    let (line, event) = p.step(Err("driver gone".to_string()));
    assert_eq!(line, Some("NVML error: driver gone".to_string()));
    assert!(matches!(event, UiEvent::Error(e) if e == "driver gone"));
    assert_eq!(p, before);
}

#[test]
fn poller_obeys_a_new_baseline() {
    let mut p = Poller::new(cfg());
    p.step(Ok(sample(3, 8, 0)));
    assert_eq!(p.bad_width, 1);
    let (lines, waits_on) = p.wake(0, 5000, &vec![Command::SetBaseline { gen: 3, width: 8 }]);
    assert!(waits_on);
    assert_eq!(lines, vec!["baseline updated to Gen3 x8".to_string()]);
    assert_eq!(p.bad_width, 1);
    let (_, event) = p.step(Ok(sample(3, 8, 0)));
    assert!(matches!(event, UiEvent::Sample(_, Level::Normal)));
}

fn keep_waiting(elapsed_ns: u128, poll_ms: u64) -> bool {
    let mut p = Poller::new(cfg());
    let (lines, waits_on) = p.wake(elapsed_ns, poll_ms, &vec![]);
    assert!(lines.is_empty());
    assert_eq!(p, Poller::new(cfg()));
    waits_on
}

#[test]
fn command_at_the_last_look_holds_for_the_next_sample() {
    let mut p = Poller::new(cfg());
    p.step(Ok(sample(3, 16, 0)));
    let first = Command::SetBaseline { gen: 5, width: 16 };
    let last = Command::SetBaseline { gen: 4, width: 16 };
    let (lines, waits_on) = p.wake(4_500_000_000, 5000, &vec![first]);
    assert_eq!(lines, vec!["baseline updated to Gen5 x16".to_string()]);
    assert!(waits_on);
    let (lines, waits_on) = p.wake(5_000_000_000, 5000, &vec![last]);
    assert_eq!(lines, vec!["baseline updated to Gen4 x16".to_string()]);
    assert!(!waits_on);
    let (_, event) = p.step(Ok(sample(4, 16, 90)));
    assert!(matches!(event, UiEvent::Sample(_, Level::Normal)));
    let (_, event) = p.step(Ok(sample(3, 16, 90)));
    assert!(matches!(event, UiEvent::Sample(_, Level::Warn)));
}

#[test]
fn new_interval_applies_within_a_pause() {
    let ms = 1_000_000u128;
    for (change, new_ms) in [(100u128, 5_000u64), (120_250, 5_000), (7, 10), (3_000, 60_000)] {
        let mut p = Poller::new(cfg());
        let mut at = 3 * ms;
        loop {
            let interval = if at >= change * ms { new_ms } else { 300_000 };
            let (_, waits_on) = p.wake(at, interval, &vec![]);
            if !waits_on {
                break;
            }
            at += u128::from(WAKE_MS) * ms;
        }
        assert!(at >= u128::from(new_ms) * ms);
        assert!(at <= (change.max(u128::from(new_ms)) + 500) * ms);
    }
}

#[test]
fn interval_of_the_settings_plays_no_part() {
    let mut p = Poller::new(Config {
        poll_ms: 300_000,
        ..cfg()
    });
    assert!(!p.wake(5_000_000_000, 5_000, &vec![]).1);
}

#[test]
fn waiting_ends_at_the_interval() {
    assert!(keep_waiting(0, 5000));
    assert!(keep_waiting(4_999_999_999, 5000));
    assert!(!keep_waiting(5_000_000_000, 5000));
    // A shorter interval ends the wait at the next wake.
    assert!(keep_waiting(6_000_000_000, 300_000));
    assert!(!keep_waiting(6_000_000_000, 5000));
    assert!(!keep_waiting(1 << 100, u64::MAX));
}

#[test]
fn start_and_failure_lines() {
    assert_eq!(
        started_line(Some("RTX 3080")),
        "poller started for RTX 3080".to_string()
    );
    assert_eq!(started_line(None), "poller started for ?".to_string());
    let (line, event) = init_failed("no library");
    assert_eq!(line, "NVML init failed: no library");
    assert!(matches!(event, UiEvent::Error(e) if e == "NVML init failed: no library"));
}

#[test]
fn poller_logs_like_the_rest() {
    let record = log(0, 0, "hello").unwrap();
    assert_eq!(record.file, "pciewatch-19700101.log");
    assert_eq!(record.line, "1970-01-01T00:00:00.000Z hello");
}

#[test]
fn idle_speed_drops_are_not_logged() {
    let mut p = Poller::new(cfg());
    assert!(p.step(Ok(sample(3, 16, 90))).0.is_some());
    for n in 0..20 {
        assert_eq!(p.step(Ok(sample(1 + n % 3, 16, n % 20))).0, None);
    }
}
