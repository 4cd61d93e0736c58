use pciewatch::config::Config;
use pciewatch::level::Level;
use pciewatch::poller::{Command, PerformanceState, Sample, UiEvent};
use pciewatch::ui::{
    autostart_command, autostart_text, on_autostart_set, on_autostart_state, open_failed_line,
    poll_items, set_level, start_line, status_text, Effect, Ui,
};
use pciewatch::win32::Kind;

const SEC: u128 = 1_000_000_000;

fn sample(gen: u32, width: u32) -> Sample {
    Sample {
        gen,
        width,
        util: 7,
        pstate: PerformanceState::Eight,
    }
}

fn fresh() -> Ui {
    Ui::new(Config::default(), 0)
}

fn at(level: Level) -> Ui {
    Ui { level, ..fresh() }
}

fn text(s: &str) -> String {
    s.to_string()
}

fn balloon(title: &str, msg: &str, kind: Kind) -> Effect {
    Effect::Balloon {
        title: text(title),
        msg: text(msg),
        kind,
    }
}

fn has_balloon(effects: &[Effect]) -> bool {
    effects.iter().any(|e| matches!(e, Effect::Balloon { .. }))
}

#[test]
fn status_names_link_and_baseline() {
    assert_eq!(
        status_text(&fresh(), &sample(2, 8)),
        "Gen2 x8  (want Gen3 x16)   7% util  P8"
    );
}

#[test]
fn degraded_link_is_toasted() {
    let mut ui = at(Level::Warn);
    assert_eq!(
        set_level(&mut ui, Level::Degraded, Some(sample(3, 4))),
        vec![
            Effect::SetIcon(Level::Degraded),
            Effect::Log(text("toast: PCIe link degraded (Gen3 x4)")),
            balloon(
                "PCIe link degraded",
                "Link is now Gen3 x4 (baseline Gen3 x16). Possible loose GPU — reseat the card.",
                Kind::Error
            ),
            Effect::SetTip(text("PCIe Watch — DEGRADED Gen3 x4")),
        ]
    );
    assert_eq!(ui.level, Level::Degraded);
    assert_eq!(
        set_level(&mut ui, Level::Degraded, Some(sample(3, 2))),
        vec![Effect::SetTip(text("PCIe Watch — DEGRADED Gen3 x2"))]
    );
}

#[test]
fn lost_gpu_is_toasted() {
    let mut ui = at(Level::Normal);
    assert_eq!(
        set_level(&mut ui, Level::Lost, None),
        vec![
            Effect::SetIcon(Level::Lost),
            Effect::Log(text("toast: GPU not responding (no samples)")),
            balloon(
                "GPU not responding",
                "No PCIe link samples — check the slot, the card, and the driver.",
                Kind::Error
            ),
            Effect::SetTip(text("PCIe Watch — GPU not responding")),
        ]
    );
}

#[test]
fn recovery_is_toasted() {
    for prev in [Level::Degraded, Level::Lost] {
        let mut ui = at(prev);
        assert_eq!(
            set_level(&mut ui, Level::Normal, Some(sample(3, 16))),
            vec![
                Effect::SetIcon(Level::Normal),
                Effect::Log(text("toast: PCIe link restored (Gen3 x16)")),
                balloon(
                    "PCIe link restored",
                    "Back to Gen3 x16 — link is healthy again.",
                    Kind::Info
                ),
                Effect::SetTip(text("PCIe Watch — Gen3 x16")),
            ]
        );
    }
}

#[test]
fn warnings_change_icon_and_tooltip_only() {
    for (prev, level) in [(Level::Normal, Level::Warn), (Level::Warn, Level::Normal)] {
        let mut ui = at(prev);
        assert_eq!(
            set_level(&mut ui, level, Some(sample(2, 16))),
            vec![
                Effect::SetIcon(level),
                Effect::SetTip(text("PCIe Watch — Gen2 x16")),
            ]
        );
    }
    let mut ui = at(Level::Degraded);
    assert!(!has_balloon(&set_level(
        &mut ui,
        Level::Warn,
        Some(sample(2, 16))
    )));
}

#[test]
fn level_without_sample_has_a_plain_tooltip() {
    let mut ui = at(Level::Normal);
    assert_eq!(
        set_level(&mut ui, Level::Normal, None),
        vec![Effect::SetTip(text("PCIe Watch"))]
    );
}

#[test]
fn first_sample_sets_status_and_tooltip() {
    let mut ui = fresh();
    assert_eq!(
        ui.on_poller_event(5, UiEvent::Sample(sample(3, 16), Level::Normal)),
        vec![
            Effect::SetStatus(text("Gen3 x16  (want Gen3 x16)   7% util  P8")),
            Effect::SetTip(text("PCIe Watch — Gen3 x16")),
        ]
    );
    assert_eq!(ui.last_sample, Some(sample(3, 16)));
    assert_eq!(ui.last_event_ns, 5);
    assert_eq!(ui.consec_err, 0);
}

#[test]
fn two_errors_lose_the_gpu_once() {
    let mut ui = fresh();
    let first = ui.on_poller_event(1, UiEvent::Error(text("boom")));
    assert_eq!(
        first,
        vec![
            Effect::Log(text("poller error: boom")),
            Effect::SetStatus(text("Status: poller error")),
        ]
    );
    assert_eq!(ui.level, Level::Normal);
    let second = ui.on_poller_event(2, UiEvent::Error(text("boom")));
    assert!(has_balloon(&second));
    assert_eq!((ui.level, ui.consec_err), (Level::Lost, 1));
    for t in 3..10 {
        let more = ui.on_poller_event(t, UiEvent::Error(text("boom")));
        assert_eq!(
            more,
            vec![
                Effect::Log(text("poller error: boom")),
                Effect::SetStatus(text("Status: poller error")),
                Effect::SetTip(text("PCIe Watch — GPU not responding")),
            ]
        );
        assert_eq!(ui.consec_err, 1);
    }
}

#[test]
fn sample_between_errors_resets_the_count() {
    let mut ui = fresh();
    ui.on_poller_event(1, UiEvent::Error(text("a")));
    ui.on_poller_event(2, UiEvent::Sample(sample(3, 16), Level::Normal));
    ui.on_poller_event(3, UiEvent::Error(text("b")));
    assert_eq!(ui.level, Level::Normal);
}

#[test]
fn watchdog_waits_fifteen_seconds_at_five() {
    let mut ui = fresh();
    assert!(ui.watchdog(15 * SEC).is_empty());
    assert_eq!(ui.level, Level::Normal);
    assert!(has_balloon(&ui.watchdog(15 * SEC + 1)));
    assert_eq!(ui.level, Level::Lost);
    assert!(ui.watchdog(100 * SEC).is_empty());
}

#[test]
fn watchdog_scales_with_the_interval() {
    let mut ui = fresh();
    ui.cfg.poll_ms = 300_000;
    assert!(ui.watchdog(900 * SEC).is_empty());
    assert!(!ui.watchdog(900 * SEC + 1).is_empty());
    let mut ui = fresh();
    ui.cfg.poll_ms = 1000;
    assert!(ui.watchdog(15 * SEC).is_empty());
}

#[test]
fn events_restart_the_watchdog() {
    let mut ui = fresh();
    ui.on_poller_event(14 * SEC, UiEvent::Error(text("e")));
    assert!(ui.watchdog(29 * SEC).is_empty());
    assert!(!ui.watchdog(29 * SEC + 1).is_empty());
    // A clock that reads an earlier time is taken as no time at all.
    let mut ui = Ui::new(Config::default(), 50 * SEC);
    assert!(ui.watchdog(0).is_empty());
}

#[test]
fn test_item_shows_a_balloon() {
    let mut ui = fresh();
    assert_eq!(
        ui.on_menu_click("test"),
        vec![balloon(
            "PCIe Watch",
            "Test notification — if you saw this, the notifier works.",
            Kind::Info
        )]
    );
    assert_eq!(ui, fresh());
}

#[test]
fn relearn_takes_the_current_speed() {
    let mut ui = fresh();
    ui.on_poller_event(1, UiEvent::Sample(sample(4, 16), Level::Normal));
    let effects = ui.on_menu_click("relearn");
    let learned = Config {
        baseline_gen: 4,
        ..Config::default()
    };
    assert_eq!(
        effects,
        vec![
            Effect::SaveConfig(learned),
            Effect::Log(text("baseline re-learned to Gen4 x16")),
            Effect::Send(Command::SetBaseline { gen: 4, width: 16 }),
            balloon("PCIe Watch", "Baseline set to Gen4 x16.", Kind::Info),
            Effect::SetStatus(text("Gen4 x16  (want Gen4 x16)   7% util  P8")),
        ]
    );
    assert_eq!(ui.cfg, learned);
}

#[test]
fn relearn_is_refused_at_another_width() {
    for width in [8, 32] {
        let mut ui = fresh();
        ui.on_poller_event(1, UiEvent::Sample(sample(4, width), Level::Warn));
        assert_eq!(
            ui.on_menu_click("relearn"),
            vec![balloon(
                "PCIe Watch",
                &format!(
                    "Link width is degraded (x{width}). Re-learn refused — fix the link first."
                ),
                Kind::Warning
            )]
        );
        assert_eq!(ui.cfg, Config::default());
    }
}

#[test]
fn relearn_needs_a_sample() {
    let mut ui = fresh();
    assert_eq!(
        ui.on_menu_click("relearn"),
        vec![balloon(
            "PCIe Watch",
            "No samples yet — cannot re-learn.",
            Kind::Warning
        )]
    );
}

#[test]
fn poll_item_sets_the_interval() {
    let mut ui = fresh();
    let effects = ui.on_menu_click("poll_30");
    let chosen = Config {
        poll_ms: 30_000,
        ..Config::default()
    };
    assert_eq!(
        effects,
        vec![
            Effect::StorePollMs(30_000),
            Effect::SaveConfig(chosen),
            Effect::Log(text("poll interval -> 30s")),
            Effect::CheckPollItems(vec![false, false, true, false, false]),
        ]
    );
    assert_eq!(ui.cfg, chosen);
    for (id, ms) in [
        ("poll_5", 5_000),
        ("poll_10", 10_000),
        ("poll_60", 60_000),
        ("poll_300", 300_000),
    ] {
        ui.on_menu_click(id);
        assert_eq!(ui.cfg.poll_ms, ms);
    }
}

#[test]
fn unknown_items_do_nothing() {
    let mut ui = fresh();
    for id in ["", "poll", "poll_", "poll_7", "poll_05", "poll_50", "status", "Exit"] {
        assert!(ui.on_menu_click(id).is_empty());
    }
    assert_eq!(ui, fresh());
}

#[test]
fn remaining_items() {
    let mut ui = fresh();
    assert_eq!(
        ui.on_menu_click("logs"),
        vec![
            Effect::Log(text("opening log folder (menu)")),
            Effect::OpenLogFolder
        ]
    );
    assert_eq!(ui.on_menu_click("autostart"), vec![Effect::QueryAutostart]);
    assert_eq!(
        ui.on_menu_click("exit"),
        vec![
            Effect::Log(text("=== PcieWatch exiting (menu) ===")),
            Effect::Exit
        ]
    );
    assert_eq!(ui, fresh());
}

#[test]
fn autostart_is_turned_around() {
    assert_eq!(on_autostart_state(true), vec![Effect::SetAutostart(false)]);
    assert_eq!(on_autostart_state(false), vec![Effect::SetAutostart(true)]);
    assert_eq!(
        on_autostart_set(true, Ok(())),
        vec![
            Effect::Log(text("autostart -> on")),
            Effect::SetAutostartText(text("Launch at login: on")),
        ]
    );
    assert_eq!(
        on_autostart_set(false, Ok(())),
        vec![
            Effect::Log(text("autostart -> off")),
            Effect::SetAutostartText(text("Launch at login: off")),
        ]
    );
    assert_eq!(
        on_autostart_set(true, Err(text("denied"))),
        vec![balloon(
            "PCIe Watch",
            "Could not change autostart: denied",
            Kind::Warning
        )]
    );
    assert_eq!(autostart_text(false), "Launch at login: off");
    assert_eq!(autostart_command("C:\\a b\\p.exe"), "\"C:\\a b\\p.exe\"");
}

#[test]
fn intervals_in_the_menu() {
    let items = poll_items(&Config::default());
    let got: Vec<(String, String, bool)> = items
        .into_iter()
        .map(|i| (i.id, i.label, i.checked))
        .collect();
    assert_eq!(
        got,
        vec![
            (text("poll_5"), text("5s"), true),
            (text("poll_10"), text("10s"), false),
            (text("poll_30"), text("30s"), false),
            (text("poll_60"), text("60s"), false),
            (text("poll_300"), text("300s"), false),
        ]
    );
    let odd = Config {
        poll_ms: 7_000,
        ..Config::default()
    };
    assert!(poll_items(&odd).iter().all(|i| !i.checked));
}

#[test]
fn lines_of_the_program() {
    assert_eq!(
        start_line(&Config::default()),
        "=== PcieWatch starting (baseline Gen3 x16, poll 5000 ms) ==="
    );
    assert_eq!(open_failed_line("gone"), "could not open log folder: gone");
}
