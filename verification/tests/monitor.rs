use pciewatch::config::Config;
use pciewatch::level::Level;
use pciewatch::poller::{Command, PerformanceState, Poller, Sample};
use pciewatch::ui::{Effect, Ui};

struct Run {
    poller: Poller,
    ui: Ui,
    time: u128,
    titles: Vec<String>,
}

impl Run {
    fn new(cfg: Config) -> Run {
        Run {
            poller: Poller::new(cfg),
            ui: Ui::new(cfg, 0),
            time: 0,
            titles: vec![],
        }
    }

    fn carry_out(&mut self, effects: Vec<Effect>) {
        for effect in effects {
            match effect {
                Effect::Balloon { title, .. } => self.titles.push(title),
                Effect::Send(command) => {
                    self.poller.wake(self.time, 5000, &vec![command]);
                }
                _ => {}
            }
        }
    }

    fn reading(&mut self, reading: Result<Sample, String>) {
        self.time += 5_000_000_000;
        let (_, event) = self.poller.step(reading);
        let effects = self.ui.on_poller_event(self.time, event);
        self.carry_out(effects);
        let effects = self.ui.watchdog(self.time);
        self.carry_out(effects);
    }

    fn link(&mut self, gen: u32, width: u32, util: u32) {
        self.reading(Ok(Sample {
            gen,
            width,
            util,
            pstate: PerformanceState::Two,
        }));
    }
}

#[test]
fn lane_loss_is_toasted_once() {
    for debounce in 1..=10u32 {
        let mut run = Run::new(Config {
            width_debounce: debounce,
            ..Config::default()
        });
        run.link(3, 16, 50);
        for n in 1..=20u32 {
            run.link(3, 8, n);
            let degraded = n >= debounce;
            assert_eq!(run.titles.len(), usize::from(degraded));
            let want = if degraded { Level::Degraded } else { Level::Warn };
            assert_eq!(run.ui.level, want);
        }
        run.link(3, 16, 0);
        assert_eq!(run.titles, vec!["PCIe link degraded", "PCIe link restored"]);
    }
}

#[test]
fn full_width_is_never_toasted() {
    let mut run = Run::new(Config::default());
    for n in 0..50u32 {
        run.link(n % 5, 16 + n % 2, n * 7 % 101);
        assert!(matches!(run.ui.level, Level::Normal | Level::Warn));
    }
    assert!(run.titles.is_empty());
}

#[test]
fn short_width_drops_are_not_toasted() {
    let mut run = Run::new(Config::default());
    for _ in 0..10 {
        run.link(3, 4, 0);
        run.link(3, 4, 0);
        run.link(3, 16, 0);
    }
    assert!(run.titles.is_empty());
}

#[test]
fn errors_lose_and_a_sample_restores() {
    let mut run = Run::new(Config::default());
    run.link(3, 16, 0);
    for _ in 0..6 {
        run.reading(Err("gone".to_string()));
    }
    assert_eq!(run.ui.level, Level::Lost);
    run.link(3, 16, 0);
    assert_eq!(run.titles, vec!["GPU not responding", "PCIe link restored"]);
}

#[test]
fn relearned_baseline_reaches_the_poller() {
    let mut run = Run::new(Config::default());
    run.link(2, 16, 90);
    assert_eq!(run.ui.level, Level::Warn);
    let effects = run.ui.on_menu_click("relearn");
    assert!(effects.contains(&Effect::Send(Command::SetBaseline { gen: 2, width: 16 })));
    run.carry_out(effects);
    assert_eq!(run.poller.cfg, run.ui.cfg);
    run.link(2, 16, 90);
    assert_eq!(run.ui.level, Level::Normal);
}

#[test]
fn gpu_back_with_fewer_lanes_is_toasted_once() {
    let mut run = Run::new(Config::default());
    run.reading(Err("gone".to_string()));
    run.reading(Err("gone".to_string()));
    assert_eq!(run.titles, vec!["GPU not responding"]);
    for _ in 0..6 {
        run.link(3, 8, 0);
    }
    assert_eq!(run.ui.level, Level::Degraded);
    assert_eq!(run.titles, vec!["GPU not responding", "PCIe link degraded"]);
}

#[test]
fn single_errors_do_not_stop_the_debounce() {
    let mut run = Run::new(Config::default());
    run.link(3, 8, 0);
    run.reading(Err("hiccup".to_string()));
    run.link(3, 8, 0);
    assert!(run.titles.is_empty());
    run.reading(Err("hiccup".to_string()));
    run.link(3, 8, 0);
    assert_eq!(run.titles, vec!["PCIe link degraded"]);
}

#[test]
fn degraded_exactly_after_the_last_low_samples() {
    // Any history of eight samples: the last three decide.
    for bits in 0..256u32 {
        let mut run = Run::new(Config::default());
        for i in 0..8 {
            run.link(3, if bits >> i & 1 == 1 { 8 } else { 16 }, 0);
        }
        assert_eq!(run.ui.level == Level::Degraded, bits >> 5 == 7);
        assert_eq!(run.poller.bad_width, (bits << 24).leading_ones());
    }
}
