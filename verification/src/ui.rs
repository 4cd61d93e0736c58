//! The coordinator: what the poller reports, what is clicked in the tray menu
//! and how long nothing was heard lead to a level, and to effects in the tray,
//! the log, the configuration file and the poller.

use vstd::prelude::*;
use vstd::string::*;
use crate::config::Config;
use crate::level::Level;
use crate::poller::{
    commanded, pstate_label, pstate_name, sample_level, Command, Sample, UiEvent,
};
use crate::text::{
    decimal, lemma_padded_text_tells_the_number, link_text, push_decimal, push_link, same_text,
};
use crate::win32::Kind;

verus! {

/// The name of the program, of its folder and of its autostart entry.
pub const APP_NAME: &'static str = "PcieWatch";

/// Poll intervals offered in the tray menu, in seconds.
pub const POLL_SECS: [u64; 5] = [5, 10, 30, 60, 300];

/// Items of the tray menu.
pub const MENU_TEST: &'static str = "test";

pub const MENU_RELEARN: &'static str = "relearn";

pub const MENU_LOGS: &'static str = "logs";

pub const MENU_AUTOSTART: &'static str = "autostart";

pub const MENU_EXIT: &'static str = "exit";

/// Poller errors in a row after which the GPU counts as lost.
pub const ERRORS_UNTIL_LOST: u32 = 2;

/// Poll cycles without an event after which the GPU counts as lost.
pub const MISSED_CYCLES: u64 = 3;

/// The GPU never counts as lost sooner than this after an event.
pub const MIN_STALE_MS: u64 = 15_000;

/// What is to be done, in this order, after an event.
#[derive(Debug, PartialEq, Eq)]
pub enum Effect {
    /// Show the icon of a level.
    SetIcon(Level),
    /// Write a line to the log.
    Log(String),
    /// Show a balloon.
    Balloon { title: String, msg: String, kind: Kind },
    /// Set the tooltip.
    SetTip(String),
    /// Set the text of the status item in the menu.
    SetStatus(String),
    /// Write the configuration file.
    SaveConfig(Config),
    /// Send a command to the poller.
    Send(Command),
    /// Set the interval that the poller reads, in milliseconds.
    StorePollMs(u64),
    /// Check or uncheck the intervals in the menu, in their order.
    CheckPollItems(Vec<bool>),
    /// Show the folder of the log.
    OpenLogFolder,
    /// Look whether the program starts at login.
    QueryAutostart,
    /// Make the program start at login, or not.
    SetAutostart(bool),
    /// Set the text of the autostart item in the menu.
    SetAutostartText(String),
    /// End the program.
    Exit,
}

/// An effect with its texts.
#[verifier::ext_equal]
pub enum EffectView {
    SetIcon(Level),
    Log(Seq<char>),
    Balloon { title: Seq<char>, msg: Seq<char>, kind: Kind },
    SetTip(Seq<char>),
    SetStatus(Seq<char>),
    SaveConfig(Config),
    Send(Command),
    StorePollMs(u64),
    CheckPollItems(Seq<bool>),
    OpenLogFolder,
    QueryAutostart,
    SetAutostart(bool),
    SetAutostartText(Seq<char>),
    Exit,
}

impl View for Effect {
    type V = EffectView;

    open spec fn view(&self) -> EffectView {
        match self {
            Effect::SetIcon(level) => EffectView::SetIcon(*level),
            Effect::Log(line) => EffectView::Log(line@),
            Effect::Balloon { title, msg, kind } => EffectView::Balloon {
                title: title@,
                msg: msg@,
                kind: *kind,
            },
            Effect::SetTip(text) => EffectView::SetTip(text@),
            Effect::SetStatus(text) => EffectView::SetStatus(text@),
            Effect::SaveConfig(cfg) => EffectView::SaveConfig(*cfg),
            Effect::Send(command) => EffectView::Send(*command),
            Effect::StorePollMs(ms) => EffectView::StorePollMs(*ms),
            Effect::CheckPollItems(checks) => EffectView::CheckPollItems(checks@),
            Effect::OpenLogFolder => EffectView::OpenLogFolder,
            Effect::QueryAutostart => EffectView::QueryAutostart,
            Effect::SetAutostart(on) => EffectView::SetAutostart(*on),
            Effect::SetAutostartText(text) => EffectView::SetAutostartText(text@),
            Effect::Exit => EffectView::Exit,
        }
    }
}

/// The effects with their texts.
pub open spec fn views(effects: Seq<Effect>) -> Seq<EffectView> {
    effects.map_values(|effect: Effect| effect@)
}

fn emit(out: &mut Vec<Effect>, effect: Effect)
    ensures
        views(final(out)@) == views(old(out)@).push(effect@),
{
    out.push(effect);
}

/// The state of the coordinator.
#[derive(Clone, Copy, PartialEq, Eq, Debug, Structural)]
pub struct Ui {
    pub level: Level,
    pub last_sample: Option<Sample>,
    /// Poller errors in a row; one stays where the GPU is lost.
    pub consec_err: u32,
    /// When the poller was last heard of, in nanoseconds of a steady clock.
    pub last_event_ns: u128,
    pub cfg: Config,
}

/// The text of the status item for a sample.
pub open spec fn status_line(cfg: Config, s: Sample) -> Seq<char> {
    link_text(s.gen, s.width) + "  (want "@ + link_text(cfg.baseline_gen, cfg.baseline_width)
        + ")   "@ + decimal(s.util as nat) + "% util  "@ + pstate_label(s.pstate)
}

/// The text of the status item for a sample.
pub fn status_text(ui: &Ui, s: &Sample) -> (res: String)
    ensures
        res@ == status_line(ui.cfg, *s),
{
    let mut out: String = String::new();
    push_link(&mut out, s.gen, s.width);
    out.append("  (want ");
    push_link(&mut out, ui.cfg.baseline_gen, ui.cfg.baseline_width);
    out.append(")   ");
    push_decimal(&mut out, s.util as u64);
    out.append("% util  ");
    out.append(pstate_name(&s.pstate));
    out
}

/// The tooltip.
pub open spec fn tip_text(level: Level, s: Option<Sample>) -> Seq<char> {
    match (level, s) {
        (Level::Lost, _) => "PCIe Watch — GPU not responding"@,
        (Level::Degraded, Some(s)) => "PCIe Watch — DEGRADED "@ + link_text(s.gen, s.width),
        (_, Some(s)) => "PCIe Watch — "@ + link_text(s.gen, s.width),
        (_, None) => "PCIe Watch"@,
    }
}

/// The log line and the balloon for a link that lost lanes.
pub open spec fn degraded_toast(cfg: Config, s: Sample) -> Seq<EffectView> {
    seq![
        EffectView::Log("toast: PCIe link degraded ("@ + link_text(s.gen, s.width) + ")"@),
        EffectView::Balloon {
            title: "PCIe link degraded"@,
            msg: "Link is now "@ + link_text(s.gen, s.width) + " (baseline "@ + link_text(
                cfg.baseline_gen,
                cfg.baseline_width,
            ) + "). Possible loose GPU — reseat the card."@,
            kind: Kind::Error,
        },
    ]
}

/// The log line and the balloon for a GPU that no longer answers.
pub open spec fn lost_toast() -> Seq<EffectView> {
    seq![
        EffectView::Log("toast: GPU not responding (no samples)"@),
        EffectView::Balloon {
            title: "GPU not responding"@,
            msg: "No PCIe link samples — check the slot, the card, and the driver."@,
            kind: Kind::Error,
        },
    ]
}

/// The log line and the balloon for a link that recovered.
pub open spec fn restored_toast(s: Sample) -> Seq<EffectView> {
    seq![
        EffectView::Log("toast: PCIe link restored ("@ + link_text(s.gen, s.width) + ")"@),
        EffectView::Balloon {
            title: "PCIe link restored"@,
            msg: "Back to "@ + link_text(s.gen, s.width) + " — link is healthy again."@,
            kind: Kind::Info,
        },
    ]
}

/// What a change of level is told the user with; nothing between normal and
/// warning.
pub open spec fn toast(cfg: Config, prev: Level, level: Level, s: Option<Sample>) -> Seq<
    EffectView,
> {
    match (level, s) {
        (Level::Degraded, Some(s)) => degraded_toast(cfg, s),
        (Level::Lost, _) => lost_toast(),
        (Level::Normal, Some(s)) if prev == Level::Degraded || prev == Level::Lost =>
            restored_toast(s),
        _ => seq![],
    }
}

/// The effects of a level: icon and balloon where it changed, the tooltip in
/// any case.
pub open spec fn level_effects(
    cfg: Config,
    prev: Level,
    level: Level,
    s: Option<Sample>,
) -> Seq<EffectView> {
    (if level != prev {
        seq![EffectView::SetIcon(level)] + toast(cfg, prev, level, s)
    } else {
        seq![]
    }) + seq![EffectView::SetTip(tip_text(level, s))]
}

fn emit_balloon(out: &mut Vec<Effect>, title: &str, msg: String, kind: Kind)
    ensures
        views(final(out)@) == views(old(out)@).push(
            EffectView::Balloon { title: title@, msg: msg@, kind },
        ),
{
    emit(out, Effect::Balloon { title: title.to_owned(), msg, kind });
}

fn emit_degraded(out: &mut Vec<Effect>, cfg: &Config, s: &Sample)
    ensures
        views(final(out)@) == views(old(out)@) + degraded_toast(*cfg, *s),
{
    let mut line: String = "toast: PCIe link degraded (".to_owned();
    push_link(&mut line, s.gen, s.width);
    line.append(")");
    emit(out, Effect::Log(line));
    let mut msg: String = "Link is now ".to_owned();
    push_link(&mut msg, s.gen, s.width);
    msg.append(" (baseline ");
    push_link(&mut msg, cfg.baseline_gen, cfg.baseline_width);
    msg.append("). Possible loose GPU — reseat the card.");
    emit_balloon(out, "PCIe link degraded", msg, Kind::Error);
}

fn emit_lost(out: &mut Vec<Effect>)
    ensures
        views(final(out)@) == views(old(out)@) + lost_toast(),
{
    emit(out, Effect::Log("toast: GPU not responding (no samples)".to_owned()));
    emit_balloon(
        out,
        "GPU not responding",
        "No PCIe link samples — check the slot, the card, and the driver.".to_owned(),
        Kind::Error,
    );
}

fn emit_restored(out: &mut Vec<Effect>, s: &Sample)
    ensures
        views(final(out)@) == views(old(out)@) + restored_toast(*s),
{
    let mut line: String = "toast: PCIe link restored (".to_owned();
    push_link(&mut line, s.gen, s.width);
    line.append(")");
    emit(out, Effect::Log(line));
    let mut msg: String = "Back to ".to_owned();
    push_link(&mut msg, s.gen, s.width);
    msg.append(" — link is healthy again.");
    emit_balloon(out, "PCIe link restored", msg, Kind::Info);
}

fn tip(level: Level, s: Option<Sample>) -> (res: String)
    ensures
        res@ == tip_text(level, s),
{
    match (level, s) {
        (Level::Lost, _) => "PCIe Watch — GPU not responding".to_owned(),
        (Level::Degraded, Some(s)) => {
            let mut text: String = "PCIe Watch — DEGRADED ".to_owned();
            push_link(&mut text, s.gen, s.width);
            text
        },
        (_, Some(s)) => {
            let mut text: String = "PCIe Watch — ".to_owned();
            push_link(&mut text, s.gen, s.width);
            text
        },
        (_, None) => "PCIe Watch".to_owned(),
    }
}

fn emit_level(out: &mut Vec<Effect>, ui: &mut Ui, level: Level, s: Option<Sample>)
    ensures
        *final(ui) == (Ui { level, ..*old(ui) }),
        views(final(out)@) == views(old(out)@) + level_effects(
            old(ui).cfg,
            old(ui).level,
            level,
            s,
        ),
{
    let prev = ui.level;
    if level != prev {
        ui.level = level;
        emit(out, Effect::SetIcon(level));
        match (prev, level, s) {
            (_, Level::Degraded, Some(s)) => emit_degraded(out, &ui.cfg, &s),
            (_, Level::Lost, _) => emit_lost(out),
            (Level::Degraded, Level::Normal, Some(s)) => emit_restored(out, &s),
            (Level::Lost, Level::Normal, Some(s)) => emit_restored(out, &s),
            _ => {},
        }
    }
    emit(out, Effect::SetTip(tip(level, s)));
}

/// Goes to a level. Icon and balloons act on transitions only; the tooltip
/// always shows the sample at hand.
pub fn set_level(ui: &mut Ui, level: Level, s: Option<Sample>) -> (res: Vec<Effect>)
    ensures
        *final(ui) == (Ui { level, ..*old(ui) }),
        views(res@) == level_effects(old(ui).cfg, old(ui).level, level, s),
{
    let mut out: Vec<Effect> = Vec::new();
    emit_level(&mut out, ui, level, s);
    out
}

/// The word for a switch.
pub open spec fn on_off(on: bool) -> Seq<char> {
    if on {
        "on"@
    } else {
        "off"@
    }
}

fn on_off_word(on: bool) -> (res: &'static str)
    ensures
        res@ == on_off(on),
{
    if on {
        "on"
    } else {
        "off"
    }
}

/// The menu item of an interval has this id.
pub open spec fn poll_id(secs: u64) -> Seq<char> {
    "poll_"@ + decimal(secs as nat)
}

/// A click on the item `id` chooses this interval.
pub open spec fn chooses(id: Seq<char>, secs: u64) -> bool {
    POLL_SECS@.contains(secs) && id == poll_id(secs)
}

/// The interval that a click on the item `id` chooses, if it is the item of
/// one.
pub open spec fn poll_choice(id: Seq<char>) -> Option<u64> {
    if exists|secs: u64| chooses(id, secs) {
        Some(choose|secs: u64| chooses(id, secs))
    } else {
        None
    }
}

/// Which of the intervals in the menu are checked where `ms` is in force.
pub open spec fn poll_checks(ms: int) -> Seq<bool> {
    Seq::new(5, |i: int| POLL_SECS@[i] * 1000 == ms)
}

/// An interval in the tray menu.
pub struct PollItem {
    pub id: String,
    pub label: String,
    pub checked: bool,
}

fn poll_item_id(secs: u64) -> (res: String)
    ensures
        res@ == poll_id(secs),
{
    let mut id: String = "poll_".to_owned();
    push_decimal(&mut id, secs);
    id
}

/// The intervals in the tray menu.
pub fn poll_items(cfg: &Config) -> (res: Vec<PollItem>)
    ensures
        res@.len() == POLL_SECS@.len(),
        forall|i: int|
            0 <= i < res@.len() ==> {
                &&& (#[trigger] res@[i]).id@ == poll_id(POLL_SECS@[i])
                &&& res@[i].label@ == decimal(POLL_SECS@[i] as nat) + "s"@
                &&& res@[i].checked == poll_checks(cfg.poll_ms as int)[i]
            },
{
    let mut items: Vec<PollItem> = Vec::new();
    let mut i: usize = 0;
    while i < 5
        invariant
            i <= 5,
            items@.len() == i,
            forall|j: int|
                0 <= j < i ==> {
                    &&& (#[trigger] items@[j]).id@ == poll_id(POLL_SECS@[j])
                    &&& items@[j].label@ == decimal(POLL_SECS@[j] as nat) + "s"@
                    &&& items@[j].checked == poll_checks(cfg.poll_ms as int)[j]
                },
        decreases 5 - i,
    {
        let secs: u64 = POLL_SECS[i];
        let mut label: String = String::new();
        push_decimal(&mut label, secs);
        label.append("s");
        items.push(PollItem { id: poll_item_id(secs), label, checked: secs * 1000 == cfg.poll_ms });
        i += 1;
    }
    items
}

fn find_poll_choice(id: &str) -> (res: Option<u64>)
    ensures
        res == poll_choice(id@),
        res matches Some(secs) ==> POLL_SECS@.contains(secs),
{
    let mut i: usize = 0;
    while i < 5
        invariant
            i <= 5,
            forall|j: int| 0 <= j < i ==> id@ != poll_id(#[trigger] POLL_SECS@[j]),
        decreases 5 - i,
    {
        let secs: u64 = POLL_SECS[i];
        let candidate = poll_item_id(secs);
        if same_text(id, candidate.as_str()) {
            proof {
                assert(chooses(id@, secs));
                lemma_choice_is_unique(id@, secs, poll_choice(id@)->0);
            }
            return Some(secs);
        }
        i += 1;
    }
    assert forall|secs: u64| !chooses(id@, secs) by {
        if POLL_SECS@.contains(secs) {
            let j = choose|j: int| 0 <= j < POLL_SECS@.len() && POLL_SECS@[j] == secs;
            assert(id@ != poll_id(POLL_SECS@[j]));
        }
    }
    None
}

/// An id belongs to one interval only.
proof fn lemma_choice_is_unique(id: Seq<char>, a: u64, b: u64)
    requires
        chooses(id, a),
        chooses(id, b),
    ensures
        a == b,
{
    assert(poll_id(a).skip("poll_"@.len() as int) == decimal(a as nat));
    assert(poll_id(b).skip("poll_"@.len() as int) == decimal(b as nat));
    lemma_padded_text_tells_the_number(a as nat, b as nat, 0);
}

/// No other item of the menu passes for an interval, nor for another one.
proof fn lemma_items_stand_apart(id: Seq<char>)
    ensures
        id == MENU_TEST@ || id == MENU_RELEARN@ || id == MENU_LOGS@ || id == MENU_AUTOSTART@ || id
            == MENU_EXIT@ ==> poll_choice(id) is None,
        MENU_TEST@ != MENU_RELEARN@,
        MENU_EXIT@ != MENU_TEST@,
        MENU_EXIT@ != MENU_RELEARN@,
        MENU_EXIT@ != MENU_LOGS@,
        MENU_EXIT@ != MENU_AUTOSTART@,
{
    reveal_strlit("poll_");
    reveal_strlit("test");
    reveal_strlit("relearn");
    reveal_strlit("logs");
    reveal_strlit("autostart");
    reveal_strlit("exit");
    assert forall|secs: u64| chooses(id, secs) implies id.len() > 0 && id[0] == 'p' by {
        assert(poll_id(secs)[0] == 'p');
    }
    assert(MENU_TEST@[0] == 't');
    assert(MENU_RELEARN@[0] == 'r');
    assert(MENU_LOGS@[0] == 'l');
    assert(MENU_AUTOSTART@[0] == 'a');
    assert(MENU_EXIT@[0] == 'e');
}

/// What is told the user under the name of the program.
pub open spec fn message(msg: Seq<char>, kind: Kind) -> EffectView {
    EffectView::Balloon { title: "PCIe Watch"@, msg, kind }
}

/// The effects of re-learning the baseline from a sample at full width.
pub open spec fn relearned_effects(cfg: Config, s: Sample) -> Seq<EffectView> {
    seq![
        EffectView::SaveConfig(cfg),
        EffectView::Log("baseline re-learned to "@ + link_text(s.gen, s.width)),
        EffectView::Send(Command::SetBaseline { gen: s.gen, width: s.width }),
        message("Baseline set to "@ + link_text(s.gen, s.width) + "."@, Kind::Info),
        EffectView::SetStatus(status_line(cfg, s)),
    ]
}

/// Nanoseconds without an event after which the GPU counts as lost: so many
/// poll cycles, but no less than the minimum.
pub open spec fn stale_after_ns(cfg: Config) -> int {
    let cycles = cfg.poll_ms * MISSED_CYCLES;
    (if cycles > MIN_STALE_MS {
        cycles
    } else {
        MIN_STALE_MS as int
    }) * 1_000_000
}

impl Ui {
    /// The state at the start.
    pub open spec fn initial(cfg: Config, now_ns: u128) -> Ui {
        Ui { level: Level::Normal, last_sample: None, consec_err: 0, last_event_ns: now_ns, cfg }
    }

    /// Whether one more error makes the GPU lost.
    pub open spec fn next_error_loses(self) -> bool {
        self.consec_err + 1 >= ERRORS_UNTIL_LOST
    }

    /// The state after an event of the poller.
    pub open spec fn after_event(self, now_ns: u128, event: UiEvent) -> Ui {
        match event {
            UiEvent::Sample(s, level) => Ui {
                level,
                last_sample: Some(s),
                consec_err: 0,
                last_event_ns: now_ns,
                ..self
            },
            UiEvent::Error(_) => Ui {
                level: if self.next_error_loses() {
                    Level::Lost
                } else {
                    self.level
                },
                consec_err: 1,
                last_event_ns: now_ns,
                ..self
            },
        }
    }

    /// The effects of an event of the poller.
    pub open spec fn event_effects(self, event: UiEvent) -> Seq<EffectView> {
        match event {
            UiEvent::Sample(s, level) => seq![EffectView::SetStatus(status_line(self.cfg, s))]
                + level_effects(self.cfg, self.level, level, Some(s)),
            UiEvent::Error(e) => seq![
                EffectView::Log("poller error: "@ + e@),
                EffectView::SetStatus("Status: poller error"@),
            ] + (if self.next_error_loses() {
                level_effects(self.cfg, self.level, Level::Lost, None)
            } else {
                seq![]
            }),
        }
    }

    /// Whether re-learning takes the last sample: only at full width.
    pub open spec fn can_relearn(self) -> bool {
        self.last_sample is Some && self.last_sample->0.width == self.cfg.baseline_width
    }

    /// The settings after a click in the menu.
    pub open spec fn clicked_config(self, id: Seq<char>) -> Config {
        if id == MENU_RELEARN@ {
            if self.can_relearn() {
                Config { baseline_gen: self.last_sample->0.gen, ..self.cfg }
            } else {
                self.cfg
            }
        } else if poll_choice(id) is Some {
            Config { poll_ms: (poll_choice(id)->0 * 1000) as u64, ..self.cfg }
        } else {
            self.cfg
        }
    }

    /// The effects of a click in the menu.
    pub open spec fn click_effects(self, id: Seq<char>) -> Seq<EffectView> {
        if id == MENU_TEST@ {
            seq![
                message(
                    "Test notification — if you saw this, the notifier works."@,
                    Kind::Info,
                ),
            ]
        } else if id == MENU_RELEARN@ {
            match self.last_sample {
                Some(s) if self.can_relearn() => relearned_effects(self.clicked_config(id), s),
                Some(s) => seq![
                    message(
                        "Link width is degraded (x"@ + decimal(s.width as nat)
                            + "). Re-learn refused — fix the link first."@,
                        Kind::Warning,
                    ),
                ],
                None => seq![message("No samples yet — cannot re-learn."@, Kind::Warning)],
            }
        } else if poll_choice(id) is Some {
            let secs = poll_choice(id)->0;
            seq![
                EffectView::StorePollMs((secs * 1000) as u64),
                EffectView::SaveConfig(self.clicked_config(id)),
                EffectView::Log("poll interval -> "@ + decimal(secs as nat) + "s"@),
                EffectView::CheckPollItems(poll_checks(secs * 1000)),
            ]
        } else if id == MENU_LOGS@ {
            seq![EffectView::Log("opening log folder (menu)"@), EffectView::OpenLogFolder]
        } else if id == MENU_AUTOSTART@ {
            seq![EffectView::QueryAutostart]
        } else if id == MENU_EXIT@ {
            seq![EffectView::Log("=== PcieWatch exiting (menu) ==="@), EffectView::Exit]
        } else {
            seq![]
        }
    }

    /// Whether nothing was heard of the poller for too long, and that is news.
    pub open spec fn goes_stale(self, now_ns: u128) -> bool {
        now_ns - self.last_event_ns > stale_after_ns(self.cfg) && self.level != Level::Lost
    }

    /// The state at the start: normal, and nothing heard yet.
    pub fn new(cfg: Config, now_ns: u128) -> (res: Ui)
        ensures
            res == Ui::initial(cfg, now_ns),
    {
        Ui { level: Level::Normal, last_sample: None, consec_err: 0, last_event_ns: now_ns, cfg }
    }

    /// Takes an event of the poller, at the time `now_ns` of the steady clock.
    pub fn on_poller_event(&mut self, now_ns: u128, event: UiEvent) -> (res: Vec<Effect>)
        ensures
            *final(self) == old(self).after_event(now_ns, event),
            views(res@) == old(self).event_effects(event),
    {
        let mut out: Vec<Effect> = Vec::new();
        self.last_event_ns = now_ns;
        match event {
            UiEvent::Sample(s, level) => {
                self.consec_err = 0;
                emit(&mut out, Effect::SetStatus(status_text(self, &s)));
                self.last_sample = Some(s);
                emit_level(&mut out, self, level, Some(s));
            },
            UiEvent::Error(e) => {
                self.consec_err = self.consec_err.saturating_add(1);
                let mut line: String = "poller error: ".to_owned();
                line.append(e.as_str());
                emit(&mut out, Effect::Log(line));
                emit(&mut out, Effect::SetStatus("Status: poller error".to_owned()));
                if self.consec_err >= ERRORS_UNTIL_LOST {
                    emit_level(&mut out, self, Level::Lost, None);
                    self.consec_err = 1;
                }
            },
        }
        out
    }

    /// Takes a click on the menu item `id`.
    pub fn on_menu_click(&mut self, id: &str) -> (res: Vec<Effect>)
        ensures
            *final(self) == (Ui { cfg: old(self).clicked_config(id@), ..*old(self) }),
            views(res@) == old(self).click_effects(id@),
    {
        let mut out: Vec<Effect> = Vec::new();
        proof {
            lemma_items_stand_apart(id@);
        }
        if same_text(id, MENU_TEST) {
            emit_balloon(
                &mut out,
                "PCIe Watch",
                "Test notification — if you saw this, the notifier works.".to_owned(),
                Kind::Info,
            );
        } else if same_text(id, MENU_RELEARN) {
            self.relearn(&mut out);
        } else if let Some(secs) = find_poll_choice(id) {
            self.choose_poll(&mut out, secs);
        } else if same_text(id, MENU_LOGS) {
            emit(&mut out, Effect::Log("opening log folder (menu)".to_owned()));
            emit(&mut out, Effect::OpenLogFolder);
        } else if same_text(id, MENU_AUTOSTART) {
            emit(&mut out, Effect::QueryAutostart);
        } else if same_text(id, MENU_EXIT) {
            emit(&mut out, Effect::Log("=== PcieWatch exiting (menu) ===".to_owned()));
            emit(&mut out, Effect::Exit);
        }
        out
    }

    fn relearn(&mut self, out: &mut Vec<Effect>)
        ensures
            *final(self) == (Ui { cfg: old(self).clicked_config(MENU_RELEARN@), ..*old(self) }),
            views(final(out)@) == views(old(out)@) + old(self).click_effects(MENU_RELEARN@),
    {
        proof {
            lemma_items_stand_apart(MENU_RELEARN@);
        }
        match self.last_sample {
            Some(s) => {
                if s.width == self.cfg.baseline_width {
                    self.cfg.baseline_gen = s.gen;
                    self.cfg.baseline_width = s.width;
                    emit(out, Effect::SaveConfig(self.cfg));
                    let mut line: String = "baseline re-learned to ".to_owned();
                    push_link(&mut line, s.gen, s.width);
                    emit(out, Effect::Log(line));
                    emit(out, Effect::Send(Command::SetBaseline { gen: s.gen, width: s.width }));
                    let mut msg: String = "Baseline set to ".to_owned();
                    push_link(&mut msg, s.gen, s.width);
                    msg.append(".");
                    emit_balloon(out, "PCIe Watch", msg, Kind::Info);
                    emit(out, Effect::SetStatus(status_text(self, &s)));
                } else {
                    let mut msg: String = "Link width is degraded (x".to_owned();
                    push_decimal(&mut msg, s.width as u64);
                    msg.append("). Re-learn refused — fix the link first.");
                    emit_balloon(out, "PCIe Watch", msg, Kind::Warning);
                }
            },
            None => emit_balloon(
                out,
                "PCIe Watch",
                "No samples yet — cannot re-learn.".to_owned(),
                Kind::Warning,
            ),
        }
    }

    fn choose_poll(&mut self, out: &mut Vec<Effect>, secs: u64)
        requires
            POLL_SECS@.contains(secs),
        ensures
            *final(self) == (Ui {
                cfg: Config { poll_ms: (secs * 1000) as u64, ..old(self).cfg },
                ..*old(self)
            }),
            views(final(out)@) == views(old(out)@) + seq![
                EffectView::StorePollMs((secs * 1000) as u64),
                EffectView::SaveConfig(
                    Config { poll_ms: (secs * 1000) as u64, ..old(self).cfg },
                ),
                EffectView::Log("poll interval -> "@ + decimal(secs as nat) + "s"@),
                EffectView::CheckPollItems(poll_checks(secs * 1000)),
            ],
    {
        let ms: u64 = secs * 1000;
        emit(out, Effect::StorePollMs(ms));
        self.cfg.poll_ms = ms;
        emit(out, Effect::SaveConfig(self.cfg));
        let mut line: String = "poll interval -> ".to_owned();
        push_decimal(&mut line, secs);
        line.append("s");
        emit(out, Effect::Log(line));
        let mut checks: Vec<bool> = Vec::new();
        let mut i: usize = 0;
        while i < 5
            invariant
                i <= 5,
                checks@.len() == i,
                forall|j: int| 0 <= j < i ==> #[trigger] checks@[j] == (POLL_SECS@[j] == secs),
            decreases 5 - i,
        {
            checks.push(POLL_SECS[i] == secs);
            i += 1;
        }
        assert(checks@ == poll_checks(secs * 1000));
        emit(out, Effect::CheckPollItems(checks));
    }

    /// Looks whether the poller has been silent for too long: a hard hang, in
    /// which not even errors come. So many missed cycles scale with the
    /// interval, so that a slow poll is not taken for a hang.
    pub fn watchdog(&mut self, now_ns: u128) -> (res: Vec<Effect>)
        ensures
            *final(self) == (Ui {
                level: if old(self).goes_stale(now_ns) {
                    Level::Lost
                } else {
                    old(self).level
                },
                ..*old(self)
            }),
            views(res@) == if old(self).goes_stale(now_ns) {
                level_effects(old(self).cfg, old(self).level, Level::Lost, None)
            } else {
                seq![]
            },
    {
        let mut out: Vec<Effect> = Vec::new();
        let cycles_ms: u128 = self.cfg.poll_ms as u128 * MISSED_CYCLES as u128;
        let stale_ms: u128 = if cycles_ms > MIN_STALE_MS as u128 {
            cycles_ms
        } else {
            MIN_STALE_MS as u128
        };
        let silent_ns: u128 = now_ns.saturating_sub(self.last_event_ns);
        if silent_ns > stale_ms * 1_000_000 && self.level != Level::Lost {
            emit_level(&mut out, self, Level::Lost, None);
        }
        out
    }
}

/// The text of the autostart item.
pub open spec fn autostart_line(on: bool) -> Seq<char> {
    "Launch at login: "@ + on_off(on)
}

/// The text of the autostart item in the menu.
pub fn autostart_text(on: bool) -> (res: String)
    ensures
        res@ == autostart_line(on),
{
    let mut text: String = "Launch at login: ".to_owned();
    text.append(on_off_word(on));
    text
}

/// The command that the system runs at login: the path of the program in
/// quotes.
pub fn autostart_command(exe: &str) -> (res: String)
    ensures
        res@ == "\""@ + exe@ + "\""@,
{
    let mut text: String = "\"".to_owned();
    text.append(exe);
    text.append("\"");
    text
}

/// Takes the answer to whether the program starts at login: a click turns it
/// around.
pub fn on_autostart_state(enabled: bool) -> (res: Vec<Effect>)
    ensures
        views(res@) == seq![EffectView::SetAutostart(!enabled)],
{
    let mut out: Vec<Effect> = Vec::new();
    emit(&mut out, Effect::SetAutostart(!enabled));
    out
}

/// Takes the outcome of the attempt to make the program start at login, or
/// not.
pub fn on_autostart_set(on: bool, outcome: Result<(), String>) -> (res: Vec<Effect>)
    ensures
        views(res@) == match outcome {
            Ok(_) => seq![
                EffectView::Log("autostart -> "@ + on_off(on)),
                EffectView::SetAutostartText(autostart_line(on)),
            ],
            Err(e) => seq![message("Could not change autostart: "@ + e@, Kind::Warning)],
        },
{
    let mut out: Vec<Effect> = Vec::new();
    match outcome {
        Ok(_) => {
            let mut line: String = "autostart -> ".to_owned();
            line.append(on_off_word(on));
            emit(&mut out, Effect::Log(line));
            emit(&mut out, Effect::SetAutostartText(autostart_text(on)));
        },
        Err(e) => {
            let mut msg: String = "Could not change autostart: ".to_owned();
            msg.append(e.as_str());
            emit_balloon(&mut out, "PCIe Watch", msg, Kind::Warning);
        },
    }
    out
}

/// The first line of a run.
pub fn start_line(cfg: &Config) -> (res: String)
    ensures
        res@ == "=== PcieWatch starting (baseline "@ + link_text(
            cfg.baseline_gen,
            cfg.baseline_width,
        ) + ", poll "@ + decimal(cfg.poll_ms as nat) + " ms) ==="@,
{
    let mut line: String = "=== PcieWatch starting (baseline ".to_owned();
    push_link(&mut line, cfg.baseline_gen, cfg.baseline_width);
    line.append(", poll ");
    push_decimal(&mut line, cfg.poll_ms);
    line.append(" ms) ===");
    line
}

/// The line about a folder that cannot be shown.
pub fn open_failed_line(error: &str) -> (res: String)
    ensures
        res@ == "could not open log folder: "@ + error@,
{
    let mut line: String = "could not open log folder: ".to_owned();
    line.append(error);
    line
}

/// Whether an effect shows a balloon.
pub open spec fn is_balloon(effect: EffectView) -> bool {
    effect is Balloon
}

/// At a level that stays, nothing happens but that the tooltip is set.
pub proof fn law_steady_level_is_quiet(cfg: Config, level: Level, s: Option<Sample>)
    ensures
        level_effects(cfg, level, level, s) == seq![EffectView::SetTip(tip_text(level, s))],
{
}

/// The tooltip always follows the sample at hand, and is set last.
pub proof fn law_tooltip_follows_the_sample(
    cfg: Config,
    prev: Level,
    level: Level,
    s: Option<Sample>,
)
    ensures
        level_effects(cfg, prev, level, s).last() == EffectView::SetTip(tip_text(level, s)),
{
}

/// Between normal and warning only icon and tooltip change, and so it is on
/// any way to a warning, and wherever a level other than lost comes without a
/// sample.
pub proof fn law_warnings_are_not_toasted(
    cfg: Config,
    prev: Level,
    level: Level,
    s: Option<Sample>,
)
    requires
        level == Level::Warn || (level == Level::Normal && prev == Level::Warn) || (level
            != Level::Lost && s is None),
        prev != level,
    ensures
        level_effects(cfg, prev, level, s) == seq![
            EffectView::SetIcon(level),
            EffectView::SetTip(tip_text(level, s)),
        ],
{
}

/// A balloon comes exactly where the level changed, and the link is lost, or a
/// sample shows it degraded, or a sample shows it normal after it was degraded
/// or lost.
pub proof fn law_balloons_mark_transitions(
    cfg: Config,
    prev: Level,
    level: Level,
    s: Option<Sample>,
)
    ensures
        (exists|i: int|
            0 <= i < level_effects(cfg, prev, level, s).len() && is_balloon(
                #[trigger] level_effects(cfg, prev, level, s)[i],
            )) <==> (prev != level && (level == Level::Lost || (s is Some && (level
            == Level::Degraded || (level == Level::Normal && (prev == Level::Degraded || prev
            == Level::Lost)))))),
{
    let effects = level_effects(cfg, prev, level, s);
    if prev != level && toast(cfg, prev, level, s).len() > 0 {
        assert(effects[2] == toast(cfg, prev, level, s)[1]);
        assert(is_balloon(effects[2]));
    } else {
        assert forall|i: int| 0 <= i < effects.len() implies !is_balloon(
            #[trigger] effects[i],
        ) by {}
    }
}

/// One error after a sample changes no level; two errors in a row make the GPU
/// lost, whatever came before.
pub proof fn law_two_errors_in_a_row_lose(
    ui: Ui,
    s: Sample,
    level: Level,
    first: String,
    second: String,
    t0: u128,
    t1: u128,
    t2: u128,
)
    ensures
        ui.after_event(t0, UiEvent::Sample(s, level)).after_event(
            t1,
            UiEvent::Error(first),
        ).level == level,
        ui.after_event(t1, UiEvent::Error(first)).after_event(
            t2,
            UiEvent::Error(second),
        ).level == Level::Lost,
{
}

/// The first error after the start changes no level.
pub proof fn law_first_error_is_forgiven(cfg: Config, start: u128, now: u128, error: String)
    ensures
        Ui::initial(cfg, start).after_event(now, UiEvent::Error(error)).level == Level::Normal,
{
}

/// A GPU that is lost already is not reported again, however many errors come.
pub proof fn law_lost_is_reported_once(ui: Ui, error: String, i: int)
    requires
        ui.level == Level::Lost,
        0 <= i < ui.event_effects(UiEvent::Error(error)).len(),
    ensures
        !is_balloon(ui.event_effects(UiEvent::Error(error))[i]),
        ui.event_effects(UiEvent::Error(error))[i] !is SetIcon,
{
}

/// A sample sets the level, and the errors before it are forgotten.
pub proof fn law_sample_sets_the_level(ui: Ui, now: u128, s: Sample, level: Level)
    ensures
        ui.after_event(now, UiEvent::Sample(s, level)).level == level,
        ui.after_event(now, UiEvent::Sample(s, level)).consec_err == 0,
        ui.after_event(now, UiEvent::Sample(s, level)).last_sample == Some(s),
{
}

/// The count of errors never grows past one.
pub proof fn law_error_count_stays_small(ui: Ui, now: u128, event: UiEvent)
    ensures
        ui.after_event(now, event).consec_err < ERRORS_UNTIL_LOST,
{
}

/// Events leave the settings alone.
pub proof fn law_events_keep_settings(ui: Ui, now: u128, event: UiEvent)
    ensures
        ui.after_event(now, event).cfg == ui.cfg,
{
}

/// The watchdog leaves a poller alone that missed three cycles or less, and
/// any that was heard of in the last fifteen seconds; it reports any other
/// that is not reported yet.
pub proof fn law_watchdog_waits_three_cycles(ui: Ui, now: u128)
    ensures
        now - ui.last_event_ns <= 3 * ui.cfg.poll_ms * 1_000_000 ==> !ui.goes_stale(now),
        now - ui.last_event_ns <= 15_000 * 1_000_000 ==> !ui.goes_stale(now),
        now - ui.last_event_ns > 3 * ui.cfg.poll_ms * 1_000_000 && now - ui.last_event_ns > 15_000
            * 1_000_000 && ui.level != Level::Lost ==> ui.goes_stale(now),
{
}

/// The watchdog reports a hang once.
pub proof fn law_watchdog_barks_once(ui: Ui, now: u128, later: u128)
    requires
        ui.goes_stale(now),
    ensures
        !(Ui { level: Level::Lost, ..ui }).goes_stale(later),
{
}

/// Any event, an error too, starts the wait of the watchdog over.
pub proof fn law_events_restart_the_watchdog(ui: Ui, now: u128, event: UiEvent, later: u128)
    requires
        later - now <= stale_after_ns(ui.cfg),
    ensures
        !ui.after_event(now, event).goes_stale(later),
{
}

/// Re-learning never changes the width of the baseline, nor any other setting
/// but its speed.
pub proof fn law_relearning_keeps_the_width(ui: Ui)
    ensures
        ui.clicked_config(MENU_RELEARN@) == (Config {
            baseline_gen: ui.clicked_config(MENU_RELEARN@).baseline_gen,
            ..ui.cfg
        }),
{
}

/// Re-learning is refused, and changes nothing, without a sample or at another
/// width than the baseline's: all that happens is one balloon with a warning.
pub proof fn law_relearning_needs_full_width(ui: Ui)
    requires
        ui.last_sample is None || ui.last_sample->0.width != ui.cfg.baseline_width,
    ensures
        ui.clicked_config(MENU_RELEARN@) == ui.cfg,
        ui.click_effects(MENU_RELEARN@).len() == 1,
        ui.click_effects(MENU_RELEARN@)[0] is Balloon,
        ui.click_effects(MENU_RELEARN@)[0]->kind == Kind::Warning,
{
    lemma_items_stand_apart(MENU_RELEARN@);
}

/// After re-learning, and once the poller has looked at its commands, both
/// sides hold the same baseline, and the link that it was learned from is
/// normal.
pub proof fn law_relearning_reaches_the_poller(
    ui: Ui,
    poller_cfg: Config,
    earlier: Seq<Command>,
    bad_width: u32,
)
    requires
        ui.last_sample is Some,
        ui.last_sample->0.width == ui.cfg.baseline_width,
    ensures
        ({
            let s = ui.last_sample->0;
            let learned = ui.clicked_config(MENU_RELEARN@);
            let command = Command::SetBaseline { gen: s.gen, width: s.width };
            let obeyed = commanded(poller_cfg, earlier.push(command));
            &&& ui.click_effects(MENU_RELEARN@).contains(EffectView::Send(command))
            &&& ui.click_effects(MENU_RELEARN@).contains(EffectView::SaveConfig(learned))
            &&& obeyed.baseline_gen == learned.baseline_gen
            &&& obeyed.baseline_width == learned.baseline_width
            &&& sample_level(obeyed, s, bad_width) == Level::Normal
        }),
{
    lemma_items_stand_apart(MENU_RELEARN@);
    let s = ui.last_sample->0;
    let command = Command::SetBaseline { gen: s.gen, width: s.width };
    let effects = ui.click_effects(MENU_RELEARN@);
    assert(effects[0] == EffectView::SaveConfig(ui.clicked_config(MENU_RELEARN@)));
    assert(effects[2] == EffectView::Send(command));
    assert(earlier.push(command).last() == command);
}

/// The item of an interval chooses it: the poller gets it, the file gets it,
/// and it alone is checked in the menu.
pub proof fn law_poll_item_chooses_its_interval(ui: Ui, i: int, j: int)
    requires
        0 <= i < POLL_SECS@.len(),
        0 <= j < POLL_SECS@.len(),
    ensures
        ({
            let id = poll_id(POLL_SECS@[i]);
            let ms = (POLL_SECS@[i] * 1000) as u64;
            &&& poll_choice(id) == Some(POLL_SECS@[i])
            &&& ui.clicked_config(id).poll_ms == ms
            &&& ui.click_effects(id).contains(EffectView::StorePollMs(ms))
            &&& ui.click_effects(id).contains(EffectView::SaveConfig(ui.clicked_config(id)))
            &&& ui.click_effects(id).contains(EffectView::CheckPollItems(poll_checks(ms as int)))
            &&& poll_checks(ms as int)[j] == (i == j)
        }),
{
    let secs = POLL_SECS@[i];
    let id = poll_id(secs);
    assert(chooses(id, secs));
    lemma_choice_is_unique(id, secs, poll_choice(id)->0);
    lemma_items_stand_apart(id);
    let effects = ui.click_effects(id);
    assert(effects[0] == EffectView::StorePollMs((secs * 1000) as u64));
    assert(effects[1] == EffectView::SaveConfig(ui.clicked_config(id)));
    assert(effects[3] == EffectView::CheckPollItems(poll_checks(secs * 1000)));
}

/// No click takes a setting out of its range.
pub proof fn law_clicks_keep_settings_in_range(ui: Ui, id: Seq<char>)
    requires
        ui.cfg.in_range(),
    ensures
        ui.clicked_config(id).in_range(),
{
    if poll_choice(id) is Some {
        assert(chooses(id, poll_choice(id)->0));
    }
}

/// The settings that a click saves are the ones in force after it, and a
/// change of settings is always saved.
pub proof fn law_saved_settings_are_in_force(ui: Ui, id: Seq<char>, cfg: Config)
    ensures
        ui.click_effects(id).contains(EffectView::SaveConfig(cfg)) ==> cfg == ui.clicked_config(id),
        ui.clicked_config(id) != ui.cfg ==> ui.click_effects(id).contains(
            EffectView::SaveConfig(ui.clicked_config(id)),
        ),
{
    lemma_items_stand_apart(id);
    if ui.clicked_config(id) != ui.cfg {
        assert(ui.click_effects(id)[0] == EffectView::SaveConfig(ui.clicked_config(id))
            || ui.click_effects(id)[1] == EffectView::SaveConfig(ui.clicked_config(id)));
    }
}

/// Only the exit item ends the program.
pub proof fn law_only_exit_ends(ui: Ui, id: Seq<char>)
    ensures
        ui.click_effects(id).contains(EffectView::Exit) <==> id == MENU_EXIT@,
{
    lemma_items_stand_apart(id);
    if id == MENU_EXIT@ {
        assert(ui.click_effects(id)[1] == EffectView::Exit);
    }
}

/// A link that lost lanes is told as that, whatever the level was before, a
/// lost GPU too: icon, log line, an error balloon with the link and its
/// baseline, and the tooltip.
pub proof fn law_lane_loss_is_told_as_such(cfg: Config, prev: Level, s: Sample)
    requires
        prev != Level::Degraded,
    ensures
        ({
            let link = link_text(s.gen, s.width);
            let baseline = link_text(cfg.baseline_gen, cfg.baseline_width);
            let effects = level_effects(cfg, prev, Level::Degraded, Some(s));
            &&& effects.len() == 4
            &&& effects[0] == EffectView::SetIcon(Level::Degraded)
            &&& effects[1] == EffectView::Log("toast: PCIe link degraded ("@ + link + ")"@)
            &&& effects[2] == (EffectView::Balloon {
                title: "PCIe link degraded"@,
                msg: "Link is now "@ + link + " (baseline "@ + baseline
                    + "). Possible loose GPU — reseat the card."@,
                kind: Kind::Error,
            })
            &&& effects[3] == EffectView::SetTip("PCIe Watch — DEGRADED "@ + link)
        }),
{
}

/// A GPU that no longer answers is told as that, whatever the level was before
/// and whatever sample is at hand.
pub proof fn law_outage_is_told_as_such(cfg: Config, prev: Level, s: Option<Sample>)
    requires
        prev != Level::Lost,
    ensures
        ({
            let effects = level_effects(cfg, prev, Level::Lost, s);
            &&& effects.len() == 4
            &&& effects[0] == EffectView::SetIcon(Level::Lost)
            &&& effects[1] == EffectView::Log("toast: GPU not responding (no samples)"@)
            &&& effects[2] == (EffectView::Balloon {
                title: "GPU not responding"@,
                msg: "No PCIe link samples — check the slot, the card, and the driver."@,
                kind: Kind::Error,
            })
            &&& effects[3] == EffectView::SetTip("PCIe Watch — GPU not responding"@)
        }),
{
}

/// A link that is normal again after it was degraded or lost is told as that.
pub proof fn law_recovery_is_told_as_such(cfg: Config, prev: Level, s: Sample)
    requires
        prev == Level::Degraded || prev == Level::Lost,
    ensures
        ({
            let link = link_text(s.gen, s.width);
            let effects = level_effects(cfg, prev, Level::Normal, Some(s));
            &&& effects.len() == 4
            &&& effects[0] == EffectView::SetIcon(Level::Normal)
            &&& effects[1] == EffectView::Log("toast: PCIe link restored ("@ + link + ")"@)
            &&& effects[2] == (EffectView::Balloon {
                title: "PCIe link restored"@,
                msg: "Back to "@ + link + " — link is healthy again."@,
                kind: Kind::Info,
            })
            &&& effects[3] == EffectView::SetTip("PCIe Watch — "@ + link)
        }),
{
}

/// The title and the kind of a balloon tell the new level: no link is called
/// restored that is not normal, nor degraded that is not, and the GPU is said
/// not to respond exactly where it is lost. Bad news is an error, good news is
/// not.
pub proof fn law_balloons_tell_the_level(
    cfg: Config,
    prev: Level,
    level: Level,
    s: Option<Sample>,
    i: int,
)
    requires
        0 <= i < level_effects(cfg, prev, level, s).len(),
        level_effects(cfg, prev, level, s)[i] is Balloon,
    ensures
        ({
            let balloon = level_effects(cfg, prev, level, s)[i];
            &&& balloon->title == "PCIe link degraded"@ <==> level == Level::Degraded
            &&& balloon->title == "GPU not responding"@ <==> level == Level::Lost
            &&& balloon->title == "PCIe link restored"@ <==> level == Level::Normal
            &&& balloon->kind == Kind::Info <==> level == Level::Normal
            &&& balloon->kind == Kind::Error <==> level != Level::Normal
            &&& level != Level::Warn
            &&& prev != level
        }),
{
    reveal_strlit("PCIe link degraded");
    reveal_strlit("GPU not responding");
    reveal_strlit("PCIe link restored");
    assert("PCIe link degraded"@[10] == 'd');
    assert("PCIe link restored"@[10] == 'r');
    assert("GPU not responding"@[10] == 's');
}

/// The icon is set exactly where the level changes, and to the new level.
pub proof fn law_icon_follows_the_level(
    cfg: Config,
    prev: Level,
    level: Level,
    shown: Level,
    s: Option<Sample>,
)
    ensures
        level_effects(cfg, prev, level, s).contains(EffectView::SetIcon(shown)) <==> prev != level
            && shown == level,
{
    let effects = level_effects(cfg, prev, level, s);
    if prev != level {
        assert(effects[0] == EffectView::SetIcon(level));
    }
}

/// The tooltip tells a lost GPU, names the link of the sample at hand
/// otherwise, and marks a degraded one.
pub proof fn law_tooltip_names_the_link(level: Level, s: Sample)
    ensures
        tip_text(Level::Lost, Some(s)) == "PCIe Watch — GPU not responding"@,
        tip_text(Level::Lost, None) == "PCIe Watch — GPU not responding"@,
        tip_text(Level::Degraded, Some(s)) == "PCIe Watch — DEGRADED "@ + link_text(s.gen, s.width),
        level == Level::Normal || level == Level::Warn ==> tip_text(level, Some(s))
            == "PCIe Watch — "@ + link_text(s.gen, s.width),
        level != Level::Lost ==> tip_text(level, None) == "PCIe Watch"@,
{
}

/// The status item names the link, the one that is wanted, the utilization and
/// the performance state.
pub proof fn law_status_names_link_and_baseline(cfg: Config, s: Sample)
    ensures
        status_line(cfg, s) == link_text(s.gen, s.width) + "  (want "@ + link_text(
            cfg.baseline_gen,
            cfg.baseline_width,
        ) + ")   "@ + decimal(s.util as nat) + "% util  "@ + pstate_label(s.pstate),
{
}

/// The start is a normal level with nothing heard yet, at the time of the
/// start.
pub proof fn law_start_is_normal(cfg: Config, now: u128)
    ensures
        Ui::initial(cfg, now).level == Level::Normal,
        Ui::initial(cfg, now).last_sample is None,
        Ui::initial(cfg, now).consec_err == 0,
        Ui::initial(cfg, now).last_event_ns == now,
        Ui::initial(cfg, now).cfg == cfg,
{
}

/// An error is counted and keeps the last sample: alone it keeps the level
/// too, and after another one the GPU is lost.
pub proof fn law_error_keeps_the_sample(ui: Ui, now: u128, error: String)
    ensures
        ({
            let after = ui.after_event(now, UiEvent::Error(error));
            &&& after.last_sample == ui.last_sample
            &&& after.consec_err == 1
            &&& ui.consec_err == 0 ==> after.level == ui.level
            &&& ui.consec_err >= 1 ==> after.level == Level::Lost
        }),
{
}

/// A hang is noticed after any event, a sample of whatever level or an error:
/// the wait of the watchdog counts from the event, and it reports exactly
/// where more than three cycles and more than fifteen seconds have passed
/// since then, unless the GPU is lost already.
pub proof fn law_silence_after_an_event_is_noticed(ui: Ui, now: u128, event: UiEvent, later: u128)
    ensures
        ({
            let after = ui.after_event(now, event);
            &&& after.last_event_ns == now
            &&& after.level != Level::Lost && later - now > 3 * ui.cfg.poll_ms * 1_000_000 && later
                - now > 15_000_000_000 ==> after.goes_stale(later)
            &&& later - now <= 3 * ui.cfg.poll_ms * 1_000_000 || later - now <= 15_000_000_000
                ==> !after.goes_stale(later)
            &&& after.level == Level::Lost ==> !after.goes_stale(later)
        }),
{
}

/// A poller that is never heard of is noticed too: the wait counts from the
/// start.
pub proof fn law_silence_from_the_start_is_noticed(cfg: Config, start: u128, later: u128)
    ensures
        Ui::initial(cfg, start).goes_stale(later) <==> later - start > 3 * cfg.poll_ms * 1_000_000
            && later - start > 15_000_000_000,
{
}

/// Once the watchdog would report, it would at any later time: a hang that is
/// missed at one look is not missed at the next.
pub proof fn law_hang_stays_noticeable(ui: Ui, now: u128, later: u128)
    requires
        now <= later,
        ui.goes_stale(now),
    ensures
        ui.goes_stale(later),
{
}

/// A sample is shown in the status item first, against the baseline of the
/// settings; what its level leads to follows.
pub proof fn law_sample_is_shown(ui: Ui, s: Sample, level: Level)
    ensures
        ({
            let effects = ui.event_effects(UiEvent::Sample(s, level));
            &&& effects[0] == EffectView::SetStatus(status_line(ui.cfg, s))
            &&& effects.skip(1) == level_effects(ui.cfg, ui.level, level, Some(s))
        }),
{
}

/// An error is logged whole and shown in the status item; nothing else follows
/// the first one, and what a lost GPU leads to follows the second.
pub proof fn law_error_is_logged_whole(ui: Ui, error: String)
    ensures
        ({
            let effects = ui.event_effects(UiEvent::Error(error));
            &&& effects[0] == EffectView::Log("poller error: "@ + error@)
            &&& effects[1] == EffectView::SetStatus("Status: poller error"@)
            &&& ui.consec_err == 0 ==> effects.len() == 2
            &&& ui.consec_err >= 1 ==> effects.skip(2) == level_effects(
                ui.cfg,
                ui.level,
                Level::Lost,
                None,
            )
        }),
{
}

/// Re-learning takes any last sample at the width of the baseline, whatever
/// its speed: the baseline takes on that speed, is saved, logged and sent to
/// the poller, and the user is told.
pub proof fn law_relearning_takes_any_speed(ui: Ui, s: Sample)
    requires
        ui.last_sample == Some(s),
        s.width == ui.cfg.baseline_width,
    ensures
        ({
            let learned = ui.clicked_config("relearn"@);
            let effects = ui.click_effects("relearn"@);
            let link = link_text(s.gen, s.width);
            &&& learned == (Config { baseline_gen: s.gen, ..ui.cfg })
            &&& effects.len() == 5
            &&& effects[0] == EffectView::SaveConfig(learned)
            &&& effects[1] == EffectView::Log("baseline re-learned to "@ + link)
            &&& effects[2] == EffectView::Send(
                Command::SetBaseline { gen: s.gen, width: s.width },
            )
            &&& effects[3] == (EffectView::Balloon {
                title: "PCIe Watch"@,
                msg: "Baseline set to "@ + link + "."@,
                kind: Kind::Info,
            })
            &&& effects[4] == EffectView::SetStatus(status_line(learned, s))
        }),
{
    lemma_items_stand_apart(MENU_RELEARN@);
}

/// Re-learning leaves the link of the last sample at its baseline, and doing
/// so twice is doing it once.
pub proof fn law_relearned_link_is_at_its_baseline(ui: Ui, s: Sample)
    requires
        ui.last_sample == Some(s),
        s.width == ui.cfg.baseline_width,
    ensures
        ui.clicked_config("relearn"@).baseline_gen == s.gen,
        ui.clicked_config("relearn"@).baseline_width == s.width,
        (Ui { cfg: ui.clicked_config("relearn"@), ..ui }).clicked_config("relearn"@)
            == ui.clicked_config("relearn"@),
{
}

/// Where re-learning is refused, the settings stay as they are, and a warning
/// says why: the width of the link, or that there is no sample.
pub proof fn law_refusal_says_why(ui: Ui)
    ensures
        ui.last_sample matches Some(s) ==> s.width != ui.cfg.baseline_width ==> {
            &&& ui.clicked_config("relearn"@) == ui.cfg
            &&& ui.click_effects("relearn"@) == seq![
                EffectView::Balloon {
                    title: "PCIe Watch"@,
                    msg: "Link width is degraded (x"@ + decimal(s.width as nat)
                        + "). Re-learn refused — fix the link first."@,
                    kind: Kind::Warning,
                },
            ]
        },
        ui.last_sample is None ==> {
            &&& ui.clicked_config("relearn"@) == ui.cfg
            &&& ui.click_effects("relearn"@) == seq![
                EffectView::Balloon {
                    title: "PCIe Watch"@,
                    msg: "No samples yet — cannot re-learn."@,
                    kind: Kind::Warning,
                },
            ]
        },
{
    lemma_items_stand_apart(MENU_RELEARN@);
}

/// A click on an interval sets it: the poller gets it in milliseconds, it is
/// saved with all other settings as they were, logged in seconds, and checked
/// in the menu in place of any other.
pub proof fn law_click_on_an_interval_sets_it(ui: Ui, i: int)
    requires
        0 <= i < 5,
    ensures
        ({
            let secs = seq![5u64, 10, 30, 60, 300][i];
            let id = "poll_"@ + decimal(secs as nat);
            let chosen = Config { poll_ms: (secs * 1000) as u64, ..ui.cfg };
            let effects = ui.click_effects(id);
            &&& ui.clicked_config(id) == chosen
            &&& effects.len() == 4
            &&& effects[0] == EffectView::StorePollMs((secs * 1000) as u64)
            &&& effects[1] == EffectView::SaveConfig(chosen)
            &&& effects[2] == EffectView::Log(
                "poll interval -> "@ + decimal(secs as nat) + "s"@,
            )
            &&& effects[3] == EffectView::CheckPollItems(Seq::new(5, |j: int| j == i))
        }),
{
    let secs = POLL_SECS@[i];
    assert(secs == seq![5u64, 10, 30, 60, 300][i]);
    let id = poll_id(secs);
    law_poll_item_chooses_its_interval(ui, i, i);
    lemma_items_stand_apart(id);
    let checks = poll_checks(secs * 1000);
    assert forall|j: int| 0 <= j < 5 implies #[trigger] checks[j] == (j == i) by {
        law_poll_item_chooses_its_interval(ui, i, j);
    }
    assert(checks == Seq::new(5, |j: int| j == i));
}

/// The items that touch no setting do what they say.
pub proof fn law_other_items_keep_the_settings(ui: Ui, id: Seq<char>)
    requires
        id == "test"@ || id == "logs"@ || id == "autostart"@ || id == "exit"@,
    ensures
        ui.clicked_config(id) == ui.cfg,
        id == "test"@ ==> ui.click_effects(id) == seq![
            EffectView::Balloon {
                title: "PCIe Watch"@,
                msg: "Test notification — if you saw this, the notifier works."@,
                kind: Kind::Info,
            },
        ],
        id == "logs"@ ==> ui.click_effects(id) == seq![
            EffectView::Log("opening log folder (menu)"@),
            EffectView::OpenLogFolder,
        ],
        id == "autostart"@ ==> ui.click_effects(id) == seq![EffectView::QueryAutostart],
        id == "exit"@ ==> ui.click_effects(id) == seq![
            EffectView::Log("=== PcieWatch exiting (menu) ==="@),
            EffectView::Exit,
        ],
{
    lemma_items_stand_apart(id);
    reveal_strlit("test");
    reveal_strlit("relearn");
    reveal_strlit("logs");
    reveal_strlit("autostart");
    reveal_strlit("exit");
    assert("test"@[0] == 't' && "relearn"@[0] == 'r' && "logs"@[0] == 'l' && "autostart"@[0] == 'a'
        && "exit"@[0] == 'e');
}

/// Anything else that is clicked does nothing.
pub proof fn law_unknown_items_do_nothing(ui: Ui, id: Seq<char>)
    requires
        id != "test"@,
        id != "relearn"@,
        id != "logs"@,
        id != "autostart"@,
        id != "exit"@,
        id != "poll_"@ + decimal(5),
        id != "poll_"@ + decimal(10),
        id != "poll_"@ + decimal(30),
        id != "poll_"@ + decimal(60),
        id != "poll_"@ + decimal(300),
    ensures
        ui.clicked_config(id) == ui.cfg,
        ui.click_effects(id).len() == 0,
{
    assert forall|secs: u64| !chooses(id, secs) by {
        if POLL_SECS@.contains(secs) {
            let i = choose|i: int| 0 <= i < POLL_SECS@.len() && POLL_SECS@[i] == secs;
            assert(secs == 5 || secs == 10 || secs == 30 || secs == 60 || secs == 300);
        }
    }
}

/// In the menu an interval is checked exactly where it is in force.
pub proof fn law_interval_in_force_is_checked(ms: int, i: int)
    requires
        0 <= i < 5,
    ensures
        poll_checks(ms).len() == 5,
        poll_checks(ms)[i] <==> ms == 1000 * seq![5u64, 10, 30, 60, 300][i],
        POLL_SECS@[i] == seq![5u64, 10, 30, 60, 300][i],
        poll_id(POLL_SECS@[i]) == "poll_"@ + decimal(POLL_SECS@[i] as nat),
{
}

/// The switch reads `on` or `off`, and its item says what it switches.
pub proof fn law_switch_reads_on_or_off(on: bool)
    ensures
        on_off(on) == if on {
            "on"@
        } else {
            "off"@
        },
        autostart_line(on) == "Launch at login: "@ + on_off(on),
        autostart_line(true) != autostart_line(false),
{
    reveal_strlit("on");
    reveal_strlit("off");
    assert(autostart_line(true).len() != autostart_line(false).len());
}

/// The effects with their texts are those of each effect, in their order, and
/// nothing of an effect is left out.
pub proof fn law_effects_are_seen_whole(effects: Seq<Effect>, i: int)
    requires
        0 <= i < effects.len(),
    ensures
        views(effects).len() == effects.len(),
        match effects[i] {
            Effect::SetIcon(level) => views(effects)[i] == EffectView::SetIcon(level),
            Effect::Log(line) => views(effects)[i] == EffectView::Log(line@),
            Effect::Balloon { title, msg, kind } => views(effects)[i] == (EffectView::Balloon {
                title: title@,
                msg: msg@,
                kind,
            }),
            Effect::SetTip(text) => views(effects)[i] == EffectView::SetTip(text@),
            Effect::SetStatus(text) => views(effects)[i] == EffectView::SetStatus(text@),
            Effect::SaveConfig(cfg) => views(effects)[i] == EffectView::SaveConfig(cfg),
            Effect::Send(command) => views(effects)[i] == EffectView::Send(command),
            Effect::StorePollMs(ms) => views(effects)[i] == EffectView::StorePollMs(ms),
            Effect::CheckPollItems(checks) => views(effects)[i] == EffectView::CheckPollItems(
                checks@,
            ),
            Effect::OpenLogFolder => views(effects)[i] == EffectView::OpenLogFolder,
            Effect::QueryAutostart => views(effects)[i] == EffectView::QueryAutostart,
            Effect::SetAutostart(on) => views(effects)[i] == EffectView::SetAutostart(on),
            Effect::SetAutostartText(text) => views(effects)[i] == EffectView::SetAutostartText(
                text@,
            ),
            Effect::Exit => views(effects)[i] == EffectView::Exit,
        },
{
}

} // verus!
