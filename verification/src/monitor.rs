//! Poller and coordinator at work together: what a run of readings leads to in
//! the tray.

use vstd::prelude::*;
use crate::config::Config;
use crate::level::Level;
use crate::poller::{
    confirming, healthy, law_sampling_keeps_settings, law_width_drop_debounces, low_run, low_width,
    Poller, Sample, UiEvent,
};
use crate::ui::{
    is_balloon, law_balloons_tell_the_level, law_lane_loss_is_told_as_such, law_sample_is_shown,
    level_effects, status_line, toast, EffectView, Ui,
};
use crate::win32::Kind;

verus! {

/// A reading of the GPU, and when the coordinator hears of it.
pub struct Reading {
    pub now_ns: u128,
    pub result: Result<Sample, String>,
}

impl Reading {
    /// A sample of a healthy link.
    pub open spec fn is_healthy(self, cfg: Config) -> bool {
        self.result is Ok && healthy(cfg, self.result->Ok_0)
    }

    /// A sample at a low width, or an error.
    pub open spec fn is_low_if_any(self, cfg: Config) -> bool {
        self.result is Ok ==> low_width(cfg, self.result->Ok_0)
    }

    /// A sample at full width, or an error.
    pub open spec fn is_full_if_any(self, cfg: Config) -> bool {
        self.result is Ok ==> !low_width(cfg, self.result->Ok_0)
    }
}

/// Where a run of readings leads.
pub struct Outcome {
    pub poller: Poller,
    pub ui: Ui,
    /// Balloons that were shown on the way.
    pub balloons: nat,
}

/// How many balloons are among some effects.
pub open spec fn balloon_count(effects: Seq<EffectView>) -> nat
    decreases effects.len(),
{
    if effects.len() == 0 {
        0
    } else {
        balloon_count(effects.drop_last()) + if is_balloon(effects.last()) {
            1nat
        } else {
            0
        }
    }
}

impl Outcome {
    /// What the poller tells the coordinator of a reading.
    pub open spec fn event(self, reading: Reading) -> UiEvent {
        match reading.result {
            Ok(s) => UiEvent::Sample(s, self.poller.level_for(s)),
            Err(e) => UiEvent::Error(e),
        }
    }

    /// How many balloons a reading shows.
    pub open spec fn told(self, reading: Reading) -> nat {
        balloon_count(self.ui.event_effects(self.event(reading)))
    }

    /// One more reading.
    pub open spec fn read(self, reading: Reading) -> Outcome {
        Outcome {
            poller: match reading.result {
                Ok(s) => self.poller.sampled(s),
                Err(_) => self.poller,
            },
            ui: self.ui.after_event(reading.now_ns, self.event(reading)),
            balloons: self.balloons + self.told(reading),
        }
    }
}

/// Readings come in at the poller, and what it makes of each goes on to the
/// coordinator.
pub open spec fn watch(poller: Poller, ui: Ui, readings: Seq<Reading>) -> Outcome
    decreases readings.len(),
{
    if readings.len() == 0 {
        Outcome { poller, ui, balloons: 0 }
    } else {
        watch(poller, ui, readings.drop_last()).read(readings.last())
    }
}

/// The samples among some readings.
pub open spec fn samples_of(readings: Seq<Reading>) -> Seq<Sample>
    decreases readings.len(),
{
    if readings.len() == 0 {
        seq![]
    } else {
        match readings.last().result {
            Ok(s) => samples_of(readings.drop_last()).push(s),
            Err(_) => samples_of(readings.drop_last()),
        }
    }
}

/// The length of the unbroken run of errors at the end, where `before` of them
/// came in a row before the first reading.
pub open spec fn error_run(readings: Seq<Reading>, before: nat) -> nat
    decreases readings.len(),
{
    if readings.len() == 0 {
        before
    } else if readings.last().result is Err {
        error_run(readings.drop_last(), before) + 1
    } else {
        0
    }
}

/// Errors come one at a time, if at all.
pub open spec fn no_two_errors(readings: Seq<Reading>) -> bool {
    forall|i: int, j: int|
        0 <= i && j == i + 1 && j < readings.len() ==> (#[trigger] readings[i]).result is Ok || (
        #[trigger] readings[j]).result is Ok
}

/// The level is one that the user is not bothered with.
pub open spec fn quiet(level: Level) -> bool {
    level == Level::Normal || level == Level::Warn
}

proof fn lemma_count_of_sum(a: Seq<EffectView>, b: Seq<EffectView>)
    ensures
        balloon_count(a + b) == balloon_count(a) + balloon_count(b),
    decreases b.len(),
{
    if b.len() == 0 {
        assert(a + b == a);
    } else {
        assert((a + b).drop_last() == a + b.drop_last());
        lemma_count_of_sum(a, b.drop_last());
    }
}

/// A level shows one balloon or none.
proof fn lemma_level_balloons(ui: Ui, level: Level, s: Option<Sample>)
    requires
        level == Level::Lost || s is Some,
    ensures
        balloon_count(level_effects(ui.cfg, ui.level, level, s)) == if ui.level != level && (level
            == Level::Lost || level == Level::Degraded || (level == Level::Normal && !quiet(
            ui.level,
        ))) {
            1nat
        } else {
            0
        },
{
    let effects = level_effects(ui.cfg, ui.level, level, s);
    reveal_with_fuel(balloon_count, 5);
    if ui.level != level {
        let told = toast(ui.cfg, ui.level, level, s);
        assert(effects.drop_last() == seq![EffectView::SetIcon(level)] + told);
        lemma_count_of_sum(seq![EffectView::SetIcon(level)], told);
        assert(told.len() == 0 || told.len() == 2);
    } else {
        assert(effects.drop_last() == Seq::<EffectView>::empty());
    }
}

/// What a sample shows.
proof fn lemma_sample_balloons(at: Outcome, now_ns: u128, s: Sample)
    ensures
        at.told(Reading { now_ns, result: Ok(s) }) == ({
            let level = at.poller.level_for(s);
            if at.ui.level != level && (level == Level::Degraded || (level == Level::Normal
                && !quiet(at.ui.level))) {
                1nat
            } else {
                0
            }
        }),
{
    let level = at.poller.level_for(s);
    let status = seq![EffectView::SetStatus(status_line(at.ui.cfg, s))];
    lemma_count_of_sum(status, level_effects(at.ui.cfg, at.ui.level, level, Some(s)));
    lemma_level_balloons(at.ui, level, Some(s));
    reveal_with_fuel(balloon_count, 2);
}

/// What an error shows.
proof fn lemma_error_balloons(at: Outcome, now_ns: u128, error: String)
    ensures
        at.told(Reading { now_ns, result: Err(error) }) == if at.ui.next_error_loses()
            && at.ui.level != Level::Lost {
            1nat
        } else {
            0
        },
{
    let lines = seq![
        EffectView::Log("poller error: "@ + error@),
        EffectView::SetStatus("Status: poller error"@),
    ];
    let rest = if at.ui.next_error_loses() {
        level_effects(at.ui.cfg, at.ui.level, Level::Lost, None)
    } else {
        seq![]
    };
    assert(at.ui.event_effects(UiEvent::Error(error)) == lines + rest);
    lemma_count_of_sum(lines, rest);
    lemma_level_balloons(at.ui, Level::Lost, None);
    reveal_with_fuel(balloon_count, 3);
}

/// Two portions of a run come to the same as the whole.
pub proof fn law_watching_in_portions(
    poller: Poller,
    ui: Ui,
    first: Seq<Reading>,
    second: Seq<Reading>,
)
    ensures
        ({
            let mid = watch(poller, ui, first);
            let end = watch(mid.poller, mid.ui, second);
            watch(poller, ui, first + second) == (Outcome {
                balloons: mid.balloons + end.balloons,
                ..end
            })
        }),
    decreases second.len(),
{
    if second.len() == 0 {
        assert(first + second == first);
    } else {
        assert((first + second).last() == second.last());
        assert((first + second).drop_last() == first + second.drop_last());
        law_watching_in_portions(poller, ui, first, second.drop_last());
    }
}

/// The poller knows the samples alone: neither errors nor what the coordinator
/// makes of the samples matter to it. With each sample the coordinator goes to
/// the poller's level.
pub proof fn law_coordinator_follows_the_poller(poller: Poller, ui: Ui, readings: Seq<Reading>)
    ensures
        watch(poller, ui, readings).poller == poller.sampled_all(samples_of(readings)),
        readings.len() > 0 && readings.last().result is Ok ==> Some(
            watch(poller, ui, readings).ui.level,
        ) == poller.sampled_all(samples_of(readings)).last_level,
    decreases readings.len(),
{
    if readings.len() > 0 {
        law_coordinator_follows_the_poller(poller, ui, readings.drop_last());
        if readings.last().result is Ok {
            let before = samples_of(readings.drop_last());
            assert(samples_of(readings).drop_last() == before);
        }
    }
}

/// The GPU is lost exactly where the last readings are two errors in a row or
/// more, and the user is told exactly at the second one. A count of errors that
/// went on before the run counts in, and so does a GPU that was lost before.
pub proof fn law_lost_exactly_after_two_errors(poller: Poller, ui: Ui, readings: Seq<Reading>)
    requires
        ui.consec_err <= 1,
    ensures
        ({
            let before = if ui.level == Level::Lost {
                2nat
            } else {
                ui.consec_err as nat
            };
            let run = error_run(readings, before);
            let end = watch(poller, ui, readings).ui;
            &&& end.level == Level::Lost <==> run >= 2
            &&& end.level != Level::Lost ==> end.consec_err == run
            &&& end.consec_err <= 1
            &&& readings.len() > 0 && readings.last().result is Err ==> watch(
                poller,
                ui,
                readings.drop_last(),
            ).told(readings.last()) == if run == 2 {
                1nat
            } else {
                0
            }
        }),
    decreases readings.len(),
{
    if readings.len() > 0 {
        let mid = watch(poller, ui, readings.drop_last());
        let last = readings.last();
        law_lost_exactly_after_two_errors(poller, ui, readings.drop_last());
        if let Err(e) = last.result {
            lemma_error_balloons(mid, last.now_ns, e);
        }
    }
}

/// However many errors come in a row, the user is told once that the GPU is
/// lost, where they are two at least and it was not lost before; the count of
/// low widths stays as it was.
pub proof fn law_outage_is_told_once(poller: Poller, ui: Ui, readings: Seq<Reading>)
    requires
        ui.consec_err <= 1,
        forall|i: int| 0 <= i < readings.len() ==> (#[trigger] readings[i]).result is Err,
    ensures
        ({
            let end = watch(poller, ui, readings);
            &&& end.poller == poller
            &&& end.balloons == if ui.level != Level::Lost && readings.len() > 0 && ui.consec_err
                + readings.len() >= 2 {
                1nat
            } else {
                0
            }
            &&& end.ui.level == if readings.len() > 0 && ui.consec_err + readings.len() >= 2 {
                Level::Lost
            } else {
                ui.level
            }
            &&& end.ui.consec_err == if readings.len() > 0 {
                1
            } else {
                ui.consec_err
            }
        }),
    decreases readings.len(),
{
    if readings.len() > 0 {
        let before = readings.drop_last();
        assert forall|i: int| 0 <= i < before.len() implies (#[trigger] before[i]).result is Err by {
            assert(before[i] == readings[i]);
        }
        law_outage_is_told_once(poller, ui, before);
        let last = readings[readings.len() - 1];
        assert(last.result is Err);
        lemma_error_balloons(watch(poller, ui, before), last.now_ns, last.result->Err_0);
    }
}

/// However many healthy samples follow, the user is told once that the link is
/// back, where it was degraded or lost, and not at all where it was neither.
pub proof fn law_return_is_told_once(poller: Poller, ui: Ui, readings: Seq<Reading>)
    requires
        readings.len() > 0,
        forall|i: int| 0 <= i < readings.len() ==> (#[trigger] readings[i]).is_healthy(poller.cfg),
    ensures
        watch(poller, ui, readings).balloons == if quiet(ui.level) {
            0nat
        } else {
            1
        },
        watch(poller, ui, readings).ui.level == Level::Normal,
    decreases readings.len(),
{
    let before = readings.drop_last();
    assert forall|i: int| 0 <= i < before.len() implies (#[trigger] before[i]).is_healthy(
        poller.cfg,
    ) by {
        assert(before[i] == readings[i]);
    }
    if before.len() > 0 {
        law_return_is_told_once(poller, ui, before);
    }
    law_coordinator_follows_the_poller(poller, ui, before);
    law_sampling_keeps_settings(poller, samples_of(before));
    let last = readings[readings.len() - 1];
    assert(last.is_healthy(poller.cfg));
    lemma_sample_balloons(watch(poller, ui, before), last.now_ns, last.result->Ok_0);
}

/// An outage of two errors or more, and the healthy samples after it, are told
/// the user with two balloons: one when the GPU is lost, one when it is back.
pub proof fn law_outage_and_return_are_told_once_each(
    poller: Poller,
    ui: Ui,
    errors: Seq<Reading>,
    samples: Seq<Reading>,
)
    requires
        ui.consec_err <= 1,
        ui.level != Level::Lost,
        errors.len() >= 2,
        forall|i: int| 0 <= i < errors.len() ==> (#[trigger] errors[i]).result is Err,
        samples.len() > 0,
        forall|i: int| 0 <= i < samples.len() ==> (#[trigger] samples[i]).is_healthy(poller.cfg),
    ensures
        watch(poller, ui, errors).balloons == 1,
        watch(poller, ui, errors).ui.level == Level::Lost,
        watch(poller, ui, errors + samples).balloons == 2,
        watch(poller, ui, errors + samples).ui.level == Level::Normal,
{
    law_outage_is_told_once(poller, ui, errors);
    let mid = watch(poller, ui, errors);
    law_return_is_told_once(mid.poller, mid.ui, samples);
    law_watching_in_portions(poller, ui, errors, samples);
}

/// The run of errors at the end is at most one long where no two come in a row.
proof fn lemma_single_errors(poller: Poller, ui: Ui, readings: Seq<Reading>)
    requires
        ui.consec_err == 0,
        no_two_errors(readings),
    ensures
        no_two_errors(readings.drop_last()) || readings.len() == 0,
        readings.len() > 0 && readings.last().result is Err ==> !watch(
            poller,
            ui,
            readings.drop_last(),
        ).ui.next_error_loses(),
{
    if readings.len() > 0 {
        let before = readings.drop_last();
        assert forall|i: int, j: int|
            0 <= i && j == i + 1 && j < before.len() implies (#[trigger] before[i]).result is Ok || (
        #[trigger] before[j]).result is Ok by {
            assert(before[i] == readings[i] && before[j] == readings[j]);
        }
        if readings.last().result is Err && before.len() > 0 {
            assert(readings[readings.len() - 1].result is Err);
            assert(readings[readings.len() - 2].result is Ok);
            assert(before.last().result is Ok);
        }
    }
}

/// While the width is low, the user is told exactly at the sample with which
/// the run of low ones is as long as the settings ask for, whatever the
/// history was, single errors in it included.
pub proof fn law_lane_loss_is_told_when_confirmed(
    poller: Poller,
    ui: Ui,
    readings: Seq<Reading>,
    now_ns: u128,
    s: Sample,
)
    requires
        poller.bad_width == 0,
        ui.level != Level::Degraded,
        ui.consec_err == 0,
        no_two_errors(readings),
        low_width(poller.cfg, s),
    ensures
        watch(poller, ui, readings).told(Reading { now_ns, result: Ok(s) }) == if low_run(
            poller.cfg,
            samples_of(readings).push(s),
            0,
        ) == confirming(poller.cfg) {
            1nat
        } else {
            0
        },
{
    let mid = watch(poller, ui, readings);
    let history = samples_of(readings);
    lemma_level_between_samples(poller, ui, readings);
    law_coordinator_follows_the_poller(poller, ui, readings);
    let extended = history.push(s);
    assert(extended.drop_last() == history);
    assert(poller.sampled_all(extended) == mid.poller.sampled(s));
    assert(low_run(poller.cfg, extended, 0) == low_run(poller.cfg, history, 0) + 1);
    law_width_drop_debounces(poller, extended);
    if history.len() > 0 {
        law_width_drop_debounces(poller, history);
    }
    lemma_sample_balloons(mid, now_ns, s);
}

/// Single errors leave the coordinator at the level of the last sample.
proof fn lemma_level_between_samples(poller: Poller, ui: Ui, readings: Seq<Reading>)
    requires
        ui.consec_err == 0,
        no_two_errors(readings),
    ensures
        watch(poller, ui, readings).ui.level == if samples_of(readings).len() == 0 {
            ui.level
        } else {
            poller.sampled_all(samples_of(readings)).last_level->0
        },
    decreases readings.len(),
{
    if readings.len() > 0 {
        lemma_single_errors(poller, ui, readings);
        lemma_level_between_samples(poller, ui, readings.drop_last());
        law_coordinator_follows_the_poller(poller, ui, readings);
    }
}

/// A sustained loss of lanes is told the user once, and exactly when it has
/// lasted for as many samples as the settings ask for, single errors in
/// between or not. A tray that shows a degraded link from before is told again
/// only where it went back to a warning in between.
pub proof fn law_lane_loss_is_toasted_once(poller: Poller, ui: Ui, readings: Seq<Reading>)
    requires
        poller.bad_width == 0,
        ui.consec_err == 0,
        no_two_errors(readings),
        forall|i: int|
            0 <= i < readings.len() ==> (#[trigger] readings[i]).is_low_if_any(poller.cfg),
    ensures
        ({
            let end = watch(poller, ui, readings);
            let count = samples_of(readings).len();
            &&& end.balloons == if count >= confirming(poller.cfg) && (ui.level != Level::Degraded
                || confirming(poller.cfg) > 1) {
                1nat
            } else {
                0
            }
            &&& end.ui.level == if count == 0 {
                ui.level
            } else if count >= confirming(poller.cfg) {
                Level::Degraded
            } else {
                Level::Warn
            }
            &&& low_run(poller.cfg, samples_of(readings), 0) == count
        }),
    decreases readings.len(),
{
    if readings.len() > 0 {
        let before = readings.drop_last();
        let last = readings[readings.len() - 1];
        assert forall|i: int| 0 <= i < before.len() implies (
        #[trigger] before[i]).is_low_if_any(poller.cfg) by {
            assert(before[i] == readings[i]);
        }
        lemma_single_errors(poller, ui, readings);
        law_lane_loss_is_toasted_once(poller, ui, before);
        law_coordinator_follows_the_poller(poller, ui, before);
        law_coordinator_follows_the_poller(poller, ui, readings);
        let mid = watch(poller, ui, before);
        match last.result {
            Ok(s) => {
                assert(last.is_low_if_any(poller.cfg));
                assert(samples_of(readings).drop_last() == samples_of(before));
                law_width_drop_debounces(poller, samples_of(readings));
                lemma_sample_balloons(mid, last.now_ns, s);
            },
            Err(e) => {
                lemma_error_balloons(mid, last.now_ns, e);
            },
        }
    }
}

/// A link that keeps its lanes never bothers the user, whatever its speed and
/// the load on the GPU, single errors in between or not: power management
/// raises no false alarm.
pub proof fn law_full_width_is_never_toasted(poller: Poller, ui: Ui, readings: Seq<Reading>)
    requires
        quiet(ui.level),
        ui.consec_err == 0,
        no_two_errors(readings),
        forall|i: int|
            0 <= i < readings.len() ==> (#[trigger] readings[i]).is_full_if_any(poller.cfg),
    ensures
        watch(poller, ui, readings).balloons == 0,
        quiet(watch(poller, ui, readings).ui.level),
    decreases readings.len(),
{
    if readings.len() > 0 {
        let before = readings.drop_last();
        let last = readings[readings.len() - 1];
        assert forall|i: int| 0 <= i < before.len() implies (
        #[trigger] before[i]).is_full_if_any(poller.cfg) by {
            assert(before[i] == readings[i]);
        }
        lemma_single_errors(poller, ui, readings);
        law_full_width_is_never_toasted(poller, ui, before);
        law_coordinator_follows_the_poller(poller, ui, before);
        law_sampling_keeps_settings(poller, samples_of(before));
        let mid = watch(poller, ui, before);
        match last.result {
            Ok(s) => {
                assert(last.is_full_if_any(poller.cfg));
                lemma_sample_balloons(mid, last.now_ns, s);
            },
            Err(e) => {
                lemma_error_balloons(mid, last.now_ns, e);
            },
        }
    }
}

/// A hang is noticed after any run of readings, whatever they were: once more
/// than three cycles and more than fifteen seconds have passed since the last
/// of them, the watchdog reports, and not before.
pub proof fn law_hang_is_noticed_after_any_run(
    poller: Poller,
    ui: Ui,
    readings: Seq<Reading>,
    later: u128,
)
    requires
        readings.len() > 0,
    ensures
        ({
            let end = watch(poller, ui, readings).ui;
            let silent = later - readings.last().now_ns;
            end.goes_stale(later) <==> end.level != Level::Lost && silent > 3 * ui.cfg.poll_ms
                * 1_000_000 && silent > 15_000_000_000
        }),
{
    lemma_watching_keeps_settings(poller, ui, readings.drop_last());
}

proof fn lemma_watching_keeps_settings(poller: Poller, ui: Ui, readings: Seq<Reading>)
    ensures
        watch(poller, ui, readings).ui.cfg == ui.cfg,
    decreases readings.len(),
{
    if readings.len() > 0 {
        lemma_watching_keeps_settings(poller, ui, readings.drop_last());
    }
}

/// Where the count of low widths is about to be full and the tray does not
/// show it yet, be it that the GPU was lost, one more sample with fewer lanes
/// than the baseline tells the user of a degraded link.
pub proof fn law_return_with_fewer_lanes_is_told_as_degraded(at: Outcome, now_ns: u128, s: Sample)
    requires
        at.ui.level != Level::Degraded,
        s.width < at.poller.cfg.baseline_width,
        at.poller.bad_width + 1 >= at.poller.cfg.width_debounce,
    ensures
        ({
            let reading = Reading { now_ns, result: Ok(s) };
            let effects = at.ui.event_effects(at.event(reading));
            &&& at.read(reading).ui.level == Level::Degraded
            &&& effects.len() == 5
            &&& effects[3] is Balloon
            &&& effects[3]->title == "PCIe link degraded"@
            &&& effects[3]->kind == Kind::Error
        }),
{
    let effects = at.ui.event_effects(at.event(Reading { now_ns, result: Ok(s) }));
    law_sample_is_shown(at.ui, s, Level::Degraded);
    law_lane_loss_is_told_as_such(at.ui.cfg, at.ui.level, s);
    assert(effects.skip(1)[2] == effects[3]);
}

/// No sample with fewer lanes than the baseline is ever told as a link
/// restored, and none with all of them as a link degraded; no sample tells
/// that the GPU does not respond.
pub proof fn law_samples_are_told_by_their_width(at: Outcome, now_ns: u128, s: Sample, i: int)
    requires
        ({
            let effects = at.ui.event_effects(at.event(Reading { now_ns, result: Ok(s) }));
            0 <= i < effects.len() && effects[i] is Balloon
        }),
    ensures
        ({
            let effects = at.ui.event_effects(at.event(Reading { now_ns, result: Ok(s) }));
            &&& effects[i]->title == "PCIe link restored"@ <==> s.width
                >= at.poller.cfg.baseline_width
            &&& effects[i]->title == "PCIe link degraded"@ <==> s.width
                < at.poller.cfg.baseline_width
            &&& effects[i]->title != "GPU not responding"@
        }),
{
    let level = at.poller.level_for(s);
    let effects = at.ui.event_effects(at.event(Reading { now_ns, result: Ok(s) }));
    law_sample_is_shown(at.ui, s, level);
    assert(effects.skip(1)[i - 1] == effects[i]);
    law_balloons_tell_the_level(at.ui.cfg, at.ui.level, level, Some(s), i - 1);
}

} // verus!
