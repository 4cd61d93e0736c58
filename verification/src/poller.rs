//! The poller's samples, its link state machine and its loop.
//!
//! Level logic (power-management aware):
//!   width < baseline, debounced                        => Degraded (real lane loss)
//!   width < baseline, not yet debounced                => Warn     (amber, no toast)
//!   gen  < baseline while GPU active (util >= thresh)  => Warn     (speed drop under load)
//!   gen  < baseline while GPU idle                     => Normal   (power mgmt, log only)
//!   query error                                        => Error to the UI

use vstd::prelude::*;
use vstd::string::*;
use crate::config::Config;
use crate::level::Level;
use crate::logfile::{file_name, has_date, line_text, log_line, LogRecord};
use crate::text::{decimal, link_text, optional_text, push_decimal, push_link, text_if, texts};

verus! {

/// Pause between two looks at the pending commands and at the poll interval.
pub const WAKE_MS: u64 = 500;

/// The performance state of a GPU, from fastest to slowest.
#[derive(Clone, Copy, PartialEq, Eq, Debug, Structural)]
pub enum PerformanceState {
    Zero,
    One,
    Two,
    Three,
    Four,
    Five,
    Six,
    Seven,
    Eight,
    Nine,
    Ten,
    Eleven,
    Twelve,
    Thirteen,
    Fourteen,
    Fifteen,
    Unknown,
}

/// One reading of the GPU.
#[derive(Clone, Copy, PartialEq, Eq, Debug, Structural)]
pub struct Sample {
    pub gen: u32,
    pub width: u32,
    pub util: u32,
    pub pstate: PerformanceState,
}

/// What the poller tells the UI.
pub enum UiEvent {
    Sample(Sample, Level),
    Error(String),
}

/// What the UI tells the poller; looked at on each wake.
#[derive(Clone, Copy, PartialEq, Eq, Debug, Structural)]
pub enum Command {
    /// A re-learned baseline; it holds from the next sample on.
    SetBaseline { gen: u32, width: u32 },
}

/// Why a reading failed.
pub enum ProbeError {
    /// There is no GPU at the index.
    NotFound(String),
    /// The GPU is there, but a query failed.
    Query(String),
}

impl PerformanceState {
    /// The number of the state, where it has one.
    pub open spec fn number(self) -> Option<nat> {
        match self {
            PerformanceState::Zero => Some(0),
            PerformanceState::One => Some(1),
            PerformanceState::Two => Some(2),
            PerformanceState::Three => Some(3),
            PerformanceState::Four => Some(4),
            PerformanceState::Five => Some(5),
            PerformanceState::Six => Some(6),
            PerformanceState::Seven => Some(7),
            PerformanceState::Eight => Some(8),
            PerformanceState::Nine => Some(9),
            PerformanceState::Ten => Some(10),
            PerformanceState::Eleven => Some(11),
            PerformanceState::Twelve => Some(12),
            PerformanceState::Thirteen => Some(13),
            PerformanceState::Fourteen => Some(14),
            PerformanceState::Fifteen => Some(15),
            PerformanceState::Unknown => None,
        }
    }

    /// The word for the state.
    pub open spec fn word(self) -> Seq<char> {
        match self {
            PerformanceState::Zero => "Zero"@,
            PerformanceState::One => "One"@,
            PerformanceState::Two => "Two"@,
            PerformanceState::Three => "Three"@,
            PerformanceState::Four => "Four"@,
            PerformanceState::Five => "Five"@,
            PerformanceState::Six => "Six"@,
            PerformanceState::Seven => "Seven"@,
            PerformanceState::Eight => "Eight"@,
            PerformanceState::Nine => "Nine"@,
            PerformanceState::Ten => "Ten"@,
            PerformanceState::Eleven => "Eleven"@,
            PerformanceState::Twelve => "Twelve"@,
            PerformanceState::Thirteen => "Thirteen"@,
            PerformanceState::Fourteen => "Fourteen"@,
            PerformanceState::Fifteen => "Fifteen"@,
            PerformanceState::Unknown => "Unknown"@,
        }
    }

    /// The word for the state, as the log writes it.
    pub fn name(self) -> (res: &'static str)
        ensures
            res@ == self.word(),
    {
        match self {
            PerformanceState::Zero => "Zero",
            PerformanceState::One => "One",
            PerformanceState::Two => "Two",
            PerformanceState::Three => "Three",
            PerformanceState::Four => "Four",
            PerformanceState::Five => "Five",
            PerformanceState::Six => "Six",
            PerformanceState::Seven => "Seven",
            PerformanceState::Eight => "Eight",
            PerformanceState::Nine => "Nine",
            PerformanceState::Ten => "Ten",
            PerformanceState::Eleven => "Eleven",
            PerformanceState::Twelve => "Twelve",
            PerformanceState::Thirteen => "Thirteen",
            PerformanceState::Fourteen => "Fourteen",
            PerformanceState::Fifteen => "Fifteen",
            PerformanceState::Unknown => "Unknown",
        }
    }
}

/// The short name of a state: `P` and its number up to eleven, `P?` for the
/// others.
pub open spec fn pstate_label(p: PerformanceState) -> Seq<char> {
    match p.number() {
        Some(n) if n <= 11 => "P"@ + decimal(n),
        _ => "P?"@,
    }
}

/// The short name of a performance state.
pub fn pstate_name(p: &PerformanceState) -> (res: &'static str)
    ensures
        res@ == pstate_label(*p),
{
    proof {
        reveal_strlit("P");
        reveal_strlit("P0");
        reveal_strlit("P1");
        reveal_strlit("P2");
        reveal_strlit("P3");
        reveal_strlit("P4");
        reveal_strlit("P5");
        reveal_strlit("P6");
        reveal_strlit("P7");
        reveal_strlit("P8");
        reveal_strlit("P9");
        reveal_strlit("P10");
        reveal_strlit("P11");
        reveal_with_fuel(decimal, 2);
    }
    match p {
        PerformanceState::Zero => "P0",
        PerformanceState::One => "P1",
        PerformanceState::Two => "P2",
        PerformanceState::Three => "P3",
        PerformanceState::Four => "P4",
        PerformanceState::Five => "P5",
        PerformanceState::Six => "P6",
        PerformanceState::Seven => "P7",
        PerformanceState::Eight => "P8",
        PerformanceState::Nine => "P9",
        PerformanceState::Ten => "P10",
        PerformanceState::Eleven => "P11",
        _ => "P?",
    }
}

/// The link has fewer lanes than its baseline.
pub open spec fn low_width(cfg: Config, s: Sample) -> bool {
    s.width < cfg.baseline_width
}

/// The link is slower than its baseline.
pub open spec fn low_speed(cfg: Config, s: Sample) -> bool {
    s.gen < cfg.baseline_gen
}

/// The GPU is at work, so that power management does not slow the link.
pub open spec fn active(cfg: Config, s: Sample) -> bool {
    s.util >= cfg.util_active_threshold
}

/// The link has its lanes, and its speed but for what power management takes
/// from it while the GPU is idle.
pub open spec fn healthy(cfg: Config, s: Sample) -> bool {
    !low_width(cfg, s) && (!low_speed(cfg, s) || !active(cfg, s))
}

/// The length of the unbroken run of low-width samples at the end, where
/// `before` of them came in a row before the first.
pub open spec fn low_run(cfg: Config, samples: Seq<Sample>, before: nat) -> nat
    decreases samples.len(),
{
    if samples.len() == 0 {
        before
    } else if low_width(cfg, samples.last()) {
        low_run(cfg, samples.drop_last(), before) + 1
    } else {
        0
    }
}

/// The last `count` samples all have a low width.
pub open spec fn low_end(cfg: Config, samples: Seq<Sample>, count: nat) -> bool {
    &&& count <= samples.len()
    &&& forall|i: int|
        samples.len() - count <= i < samples.len() ==> low_width(cfg, #[trigger] samples[i])
}

/// How many low-width samples in a row degrade the link; one at least.
pub open spec fn confirming(cfg: Config) -> nat {
    if cfg.width_debounce == 0 {
        1
    } else {
        cfg.width_debounce as nat
    }
}

/// How many samples in a row, with this one, had a low width.
pub open spec fn width_count(cfg: Config, s: Sample, bad_width: u32) -> u32 {
    if !low_width(cfg, s) {
        0
    } else if bad_width < u32::MAX {
        (bad_width + 1) as u32
    } else {
        u32::MAX
    }
}

/// The level that a sample leads to, after `bad_width` low ones in a row.
pub open spec fn sample_level(cfg: Config, s: Sample, bad_width: u32) -> Level {
    if low_width(cfg, s) {
        if width_count(cfg, s, bad_width) >= cfg.width_debounce {
            Level::Degraded
        } else {
            Level::Warn
        }
    } else if low_speed(cfg, s) && active(cfg, s) {
        Level::Warn
    } else {
        Level::Normal
    }
}

/// The level for a new sample, and the low-width count that goes with the next
/// one.
pub fn next_level(cfg: &Config, s: &Sample, bad_width: u32) -> (res: (Level, u32))
    ensures
        res.0 == sample_level(*cfg, *s, bad_width),
        res.1 == width_count(*cfg, *s, bad_width),
{
    if s.width < cfg.baseline_width {
        let bad_width: u32 = bad_width.saturating_add(1);
        let level = if bad_width >= cfg.width_debounce {
            Level::Degraded
        } else {
            Level::Warn
        };
        (level, bad_width)
    } else {
        let level = if s.gen < cfg.baseline_gen && s.util >= cfg.util_active_threshold {
            Level::Warn
        } else {
            Level::Normal
        };
        (level, 0)
    }
}

/// The settings after pending commands: the last baseline wins, and nothing
/// else changes.
pub open spec fn commanded(cfg: Config, commands: Seq<Command>) -> Config {
    if commands.len() == 0 {
        cfg
    } else {
        match commands.last() {
            Command::SetBaseline { gen, width } => Config {
                baseline_gen: gen,
                baseline_width: width,
                ..cfg
            },
        }
    }
}

/// The line about a new baseline.
pub open spec fn baseline_notice(gen: u32, width: u32) -> Seq<char> {
    "baseline updated to "@ + link_text(gen, width)
}

/// The lines about pending commands: one for each that changes the baseline
/// which the ones before it left.
pub open spec fn command_notices(cfg: Config, commands: Seq<Command>) -> Seq<Seq<char>>
    decreases commands.len(),
{
    if commands.len() == 0 {
        seq![]
    } else {
        let before = commanded(cfg, commands.drop_last());
        let after = commanded(cfg, commands);
        command_notices(cfg, commands.drop_last()) + text_if(
            before != after,
            baseline_notice(after.baseline_gen, after.baseline_width),
        )
    }
}

/// Carries out the pending commands, oldest first, and gives the lines to log.
pub fn drain_commands(commands: &Vec<Command>, cfg: &mut Config) -> (res: Vec<String>)
    ensures
        *final(cfg) == commanded(*old(cfg), commands@),
        texts(res@) == command_notices(*old(cfg), commands@),
{
    let mut log: Vec<String> = Vec::new();
    let mut i: usize = 0;
    while i < commands.len()
        invariant
            i <= commands.len(),
            *cfg == commanded(*old(cfg), commands@.take(i as int)),
            texts(log@) == command_notices(*old(cfg), commands@.take(i as int)),
        decreases commands.len() - i,
    {
        assert(commands@.take(i + 1).drop_last() == commands@.take(i as int));
        match commands[i] {
            Command::SetBaseline { gen, width } => {
                if gen != cfg.baseline_gen || width != cfg.baseline_width {
                    let mut line: String = "baseline updated to ".to_owned();
                    push_link(&mut line, gen, width);
                    log.push(line);
                    cfg.baseline_gen = gen;
                    cfg.baseline_width = width;
                }
            },
        }
        i += 1;
    }
    assert(commands@.take(i as int) == commands@);
    log
}

/// The text of a failed reading.
pub open spec fn probe_error_text(index: u32, error: ProbeError) -> Seq<char> {
    match error {
        ProbeError::NotFound(e) => "gpu "@ + decimal(index as nat) + " not found: "@ + e@,
        ProbeError::Query(e) => e@,
    }
}

/// What a reading of the GPU at `index` comes to: the sample, or the text of
/// the error.
pub fn sample(index: u32, reading: Result<Sample, ProbeError>) -> (res: Result<Sample, String>)
    ensures
        match reading {
            Ok(s) => res == Ok::<Sample, String>(s),
            Err(error) => res matches Err(text) && text@ == probe_error_text(index, error),
        },
{
    match reading {
        Ok(s) => Ok(s),
        Err(ProbeError::NotFound(e)) => {
            let mut text: String = "gpu ".to_owned();
            push_decimal(&mut text, index as u64);
            text.append(" not found: ");
            text.append(e.as_str());
            Err(text)
        },
        Err(ProbeError::Query(e)) => Err(e),
    }
}

/// The state of the poll loop.
#[derive(Clone, Copy, PartialEq, Eq, Debug, Structural)]
pub struct Poller {
    pub cfg: Config,
    /// Low-width samples in a row so far.
    pub bad_width: u32,
    /// The level of the last sample.
    pub last_level: Option<Level>,
}

/// The line about a change of level.
pub open spec fn level_change_text(prev: Option<Level>, level: Level, s: Sample) -> Seq<char> {
    "level change: "@ + (match prev {
        Some(l) => l.name_text(),
        None => "start"@,
    }) + " -> "@ + level.name_text() + " (gen="@ + decimal(s.gen as nat) + " width="@ + decimal(
        s.width as nat,
    ) + " util="@ + decimal(s.util as nat) + "% pstate="@ + s.pstate.word() + ")"@
}

impl Poller {
    /// The level of a sample in this state.
    pub open spec fn level_for(self, s: Sample) -> Level {
        sample_level(self.cfg, s, self.bad_width)
    }

    /// The state after a sample.
    pub open spec fn sampled(self, s: Sample) -> Poller {
        Poller {
            cfg: self.cfg,
            bad_width: width_count(self.cfg, s, self.bad_width),
            last_level: Some(self.level_for(s)),
        }
    }

    /// The state after a run of samples.
    pub open spec fn sampled_all(self, samples: Seq<Sample>) -> Poller
        decreases samples.len(),
    {
        if samples.len() == 0 {
            self
        } else {
            self.sampled_all(samples.drop_last()).sampled(samples.last())
        }
    }

    /// The state after a look.
    pub open spec fn looked(self, look: Look) -> Poller {
        Poller { cfg: commanded(self.cfg, look.commands), ..self }
    }

    /// The state after a run of looks.
    pub open spec fn looked_all(self, looks: Seq<Look>) -> Poller
        decreases looks.len(),
    {
        if looks.len() == 0 {
            self
        } else {
            self.looked_all(looks.drop_last()).looked(looks.last())
        }
    }

    /// The line to log about a sample: only a change of level gets one.
    pub open spec fn sample_line(self, s: Sample) -> Option<Seq<char>> {
        if self.last_level == Some(self.level_for(s)) {
            None
        } else {
            Some(level_change_text(self.last_level, self.level_for(s), s))
        }
    }

    /// The state at the start of the loop.
    pub fn new(cfg: Config) -> (res: Poller)
        ensures
            res == (Poller { cfg, bad_width: 0, last_level: None }),
    {
        Poller { cfg, bad_width: 0, last_level: None }
    }

    /// One turn of the loop: takes a reading and gives the line to log, if
    /// any, and the event for the UI.
    pub fn step(&mut self, reading: Result<Sample, String>) -> (res: (Option<String>, UiEvent))
        ensures
            match reading {
                Ok(s) => {
                    &&& *final(self) == old(self).sampled(s)
                    &&& optional_text(res.0) == old(self).sample_line(s)
                    &&& res.1 == UiEvent::Sample(s, old(self).level_for(s))
                },
                Err(e) => {
                    &&& *final(self) == *old(self)
                    &&& optional_text(res.0) == Some("NVML error: "@ + e@)
                    &&& res.1 == UiEvent::Error(e)
                },
            },
    {
        match reading {
            Ok(s) => {
                let (level, bad_width) = next_level(&self.cfg, &s, self.bad_width);
                self.bad_width = bad_width;
                let unchanged = match self.last_level {
                    Some(last) => last == level,
                    None => false,
                };
                let line = if unchanged {
                    None
                } else {
                    Some(level_change(self.last_level, level, &s))
                };
                self.last_level = Some(level);
                (line, UiEvent::Sample(s, level))
            },
            Err(e) => {
                let mut line: String = "NVML error: ".to_owned();
                line.append(e.as_str());
                (Some(line), UiEvent::Error(e))
            },
        }
    }

    /// One look while the poller waits, `elapsed_ns` nanoseconds after the
    /// start of the cycle: carries out the pending commands, and gives the
    /// lines to log and whether the poller waits on. The last look, at which
    /// it does not, is followed by the next reading. The interval is the one
    /// handed in, never that of the settings.
    pub fn wake(&mut self, elapsed_ns: u128, poll_ms: u64, commands: &Vec<Command>) -> (res: (
        Vec<String>,
        bool,
    ))
        ensures
            *final(self) == (Poller { cfg: commanded(old(self).cfg, commands@), ..*old(self) }),
            texts(res.0@) == command_notices(old(self).cfg, commands@),
            res.1 == within_cycle(elapsed_ns as int, poll_ms),
    {
        let lines = drain_commands(commands, &mut self.cfg);
        (lines, elapsed_ns < poll_ms as u128 * 1_000_000)
    }
}

fn level_change(prev: Option<Level>, level: Level, s: &Sample) -> (res: String)
    ensures
        res@ == level_change_text(prev, level, *s),
{
    let mut out: String = "level change: ".to_owned();
    match prev {
        Some(l) => out.append(l.name()),
        None => out.append("start"),
    }
    out.append(" -> ");
    out.append(level.name());
    out.append(" (gen=");
    push_decimal(&mut out, s.gen as u64);
    out.append(" width=");
    push_decimal(&mut out, s.width as u64);
    out.append(" util=");
    push_decimal(&mut out, s.util as u64);
    out.append("% pstate=");
    out.append(s.pstate.name());
    out.append(")");
    out
}

/// Where and how a message of the poller is logged: as any other.
pub fn log(secs: i64, nanos: u32, msg: &str) -> (res: Option<LogRecord>)
    ensures
        res is Some <==> has_date(secs, nanos),
        res matches Some(record) ==> {
            &&& record.file@ == file_name(secs as int)
            &&& record.line@ == line_text(secs as int, nanos as nat, msg@)
        },
{
    log_line(secs, nanos, msg)
}

/// The cycle is not over yet.
pub open spec fn within_cycle(elapsed_ns: int, poll_ms: u64) -> bool {
    elapsed_ns < poll_ms * 1_000_000
}

/// A look of the waiting poller: when, counted from the start of the cycle,
/// which interval it found, and which commands.
pub struct Look {
    pub elapsed_ns: int,
    pub poll_ms: u64,
    pub commands: Seq<Command>,
}

impl Look {
    /// The poller waits on after this look.
    pub open spec fn waits_on(self) -> bool {
        within_cycle(self.elapsed_ns, self.poll_ms)
    }
}

/// The commands that a run of looks found, oldest first.
pub open spec fn found_commands(looks: Seq<Look>) -> Seq<Command>
    decreases looks.len(),
{
    if looks.len() == 0 {
        seq![]
    } else {
        found_commands(looks.drop_last()) + looks.last().commands
    }
}

/// The looks of one wait: the last one is the first that finds the cycle over.
pub open spec fn is_wait(looks: Seq<Look>) -> bool {
    &&& looks.len() > 0
    &&& forall|i: int| 0 <= i < looks.len() - 1 ==> (#[trigger] looks[i]).waits_on()
    &&& !looks.last().waits_on()
}

/// Between a look and the next one lies at most a pause, and what the system
/// adds to it.
pub open spec fn paced(looks: Seq<Look>, delay_ns: nat) -> bool {
    forall|i: int, j: int|
        0 <= i && j == i + 1 && j < looks.len() ==> (#[trigger] looks[j]).elapsed_ns <= (
        #[trigger] looks[i]).elapsed_ns + WAKE_MS * 1_000_000 + delay_ns
}

/// From `change` on, looks find the interval `new_ms`.
pub open spec fn interval_set(looks: Seq<Look>, change: int, new_ms: u64) -> bool {
    forall|i: int|
        0 <= i < looks.len() && (#[trigger] looks[i]).elapsed_ns >= change ==> looks[i].poll_ms
            == new_ms
}

/// What is logged, and told the UI, where the GPU library cannot be opened.
pub fn init_failed(error: &str) -> (res: (String, UiEvent))
    ensures
        res.0@ == "NVML init failed: "@ + error@,
        res.1 matches UiEvent::Error(e) && e@ == "NVML init failed: "@ + error@,
{
    let mut text: String = "NVML init failed: ".to_owned();
    text.append(error);
    (text.clone(), UiEvent::Error(text))
}

/// The line at the start of the loop; a GPU without a known name is `?`.
pub fn started_line(name: Option<&str>) -> (res: String)
    ensures
        res@ == "poller started for "@ + (match name {
            Some(n) => n@,
            None => "?"@,
        }),
{
    let mut text: String = "poller started for ".to_owned();
    match name {
        Some(n) => text.append(n),
        None => text.append("?"),
    }
    text
}

/// The level is normal exactly where the link is healthy.
pub proof fn law_normal_means_healthy(cfg: Config, s: Sample, bad_width: u32)
    ensures
        sample_level(cfg, s, bad_width) == Level::Normal <==> healthy(cfg, s),
        healthy(cfg, s) <==> s.width >= cfg.baseline_width && (s.gen >= cfg.baseline_gen || s.util
            < cfg.util_active_threshold),
{
}

/// Low is what lies below the baseline, by however much, and active is a GPU
/// whose utilization reaches the threshold.
pub proof fn law_low_is_below_the_baseline(cfg: Config, s: Sample)
    ensures
        low_width(cfg, s) <==> s.width < cfg.baseline_width,
        low_speed(cfg, s) <==> s.gen < cfg.baseline_gen,
        active(cfg, s) <==> s.util >= cfg.util_active_threshold,
{
}

/// Fewer lanes than the baseline has always alarm, be it one lane less or all
/// but one: the count grows by one, the link is degraded exactly where the
/// count reaches what the settings ask for, and it warns until then.
pub proof fn law_fewer_lanes_alarm(cfg: Config, s: Sample, bad_width: u32)
    requires
        s.width < cfg.baseline_width,
    ensures
        sample_level(cfg, s, bad_width) != Level::Normal,
        bad_width < u32::MAX ==> width_count(cfg, s, bad_width) == bad_width + 1,
        bad_width == u32::MAX ==> width_count(cfg, s, bad_width) == bad_width,
        width_count(cfg, s, bad_width) >= cfg.width_debounce ==> sample_level(cfg, s, bad_width)
            == Level::Degraded,
        width_count(cfg, s, bad_width) < cfg.width_debounce ==> sample_level(cfg, s, bad_width)
            == Level::Warn,
{
}

/// With the lanes of the baseline, or more, nothing is counted, and the link
/// warns exactly where it is slower than the baseline while the GPU works.
pub proof fn law_full_width_counts_nothing(cfg: Config, s: Sample, bad_width: u32)
    requires
        s.width >= cfg.baseline_width,
    ensures
        width_count(cfg, s, bad_width) == 0,
        s.gen < cfg.baseline_gen && s.util >= cfg.util_active_threshold ==> sample_level(
            cfg,
            s,
            bad_width,
        ) == Level::Warn,
        s.gen >= cfg.baseline_gen || s.util < cfg.util_active_threshold ==> sample_level(
            cfg,
            s,
            bad_width,
        ) == Level::Normal,
{
}

/// A worse sample is never judged better: where the link has no more lanes and
/// no more speed, the GPU no less to do and the run of low widths is no
/// shorter, the count is no smaller, what was degraded stays degraded, and
/// what was not normal does not become so.
pub proof fn law_worse_is_never_judged_better(
    cfg: Config,
    better: Sample,
    worse: Sample,
    shorter: u32,
    longer: u32,
)
    requires
        worse.width <= better.width,
        worse.gen <= better.gen,
        worse.util >= better.util,
        shorter <= longer,
    ensures
        width_count(cfg, better, shorter) <= width_count(cfg, worse, longer),
        sample_level(cfg, better, shorter) == Level::Degraded ==> sample_level(cfg, worse, longer)
            == Level::Degraded,
        sample_level(cfg, better, shorter) != Level::Normal ==> sample_level(cfg, worse, longer)
            != Level::Normal,
{
}

/// What the sample says beyond its numbers has no say in the level: the
/// performance state is only shown.
pub proof fn law_performance_state_is_only_shown(
    cfg: Config,
    s: Sample,
    pstate: PerformanceState,
    bad_width: u32,
)
    ensures
        sample_level(cfg, Sample { pstate, ..s }, bad_width) == sample_level(cfg, s, bad_width),
        width_count(cfg, Sample { pstate, ..s }, bad_width) == width_count(cfg, s, bad_width),
{
}

/// The first samples of a run of low ones warn, and from as many as the
/// settings ask for on, each is degraded, however low the width of each and
/// however long the run.
pub proof fn law_lane_loss_degrades_in_time(p: Poller, samples: Seq<Sample>)
    requires
        p.bad_width == 0,
        samples.len() > 0,
        forall|i: int|
            0 <= i < samples.len() ==> (#[trigger] samples[i]).width < p.cfg.baseline_width,
    ensures
        p.sampled_all(samples).last_level == Some(
            if samples.len() >= p.cfg.width_debounce {
                Level::Degraded
            } else {
                Level::Warn
            },
        ),
        samples.len() <= u32::MAX ==> p.sampled_all(samples).bad_width == samples.len(),
{
    law_count_is_the_low_run(p, samples);
    let count = samples.len();
    lemma_low_run_is_a_low_end(p.cfg, samples, count);
    assert(samples[samples.len() - 1].width < p.cfg.baseline_width);
}

/// A sample moves the poller on: its level is the last one, the count goes
/// with it, and the settings stay.
pub proof fn law_sample_moves_the_poller(p: Poller, s: Sample)
    ensures
        p.sampled(s).cfg == p.cfg,
        s.width >= p.cfg.baseline_width ==> p.sampled(s).bad_width == 0,
        s.width < p.cfg.baseline_width && p.bad_width < u32::MAX ==> p.sampled(s).bad_width
            == p.bad_width + 1,
        s.width < p.cfg.baseline_width ==> (p.sampled(s).last_level == Some(Level::Degraded)
            <==> p.sampled(s).bad_width >= p.cfg.width_debounce),
        p.sampled(s).bad_width == width_count(p.cfg, s, p.bad_width),
        p.sampled(s).last_level == Some(sample_level(p.cfg, s, p.bad_width)),
        p.sampled(s).last_level == Some(p.level_for(s)),
        p.sampled(s).last_level == Some(Level::Normal) <==> s.width >= p.cfg.baseline_width && (
        s.gen >= p.cfg.baseline_gen || s.util < p.cfg.util_active_threshold),
{
}

/// A sample is logged exactly where it changes the level, or is the first: the
/// line names the level before it, or the start, the new one, and all that the
/// sample says.
pub proof fn law_change_of_level_is_logged_whole(p: Poller, s: Sample)
    ensures
        p.sample_line(s) is None <==> p.last_level == p.sampled(s).last_level,
        p.last_level is None ==> p.sample_line(s) is Some,
        p.sample_line(s) matches Some(line) ==> line == "level change: "@ + (match p.last_level {
            Some(before) => before.name_text(),
            None => "start"@,
        }) + " -> "@ + p.sampled(s).last_level->0.name_text() + " (gen="@ + decimal(s.gen as nat)
            + " width="@ + decimal(s.width as nat) + " util="@ + decimal(s.util as nat)
            + "% pstate="@ + s.pstate.word() + ")"@,
{
}

/// The states up to eleven are shown by their number, and no other is shown
/// like one of them.
pub proof fn law_performance_states_go_by_number(p: PerformanceState, i: int)
    ensures
        ({
            let numbered = seq![
                PerformanceState::Zero,
                PerformanceState::One,
                PerformanceState::Two,
                PerformanceState::Three,
                PerformanceState::Four,
                PerformanceState::Five,
                PerformanceState::Six,
                PerformanceState::Seven,
                PerformanceState::Eight,
                PerformanceState::Nine,
                PerformanceState::Ten,
                PerformanceState::Eleven,
            ];
            &&& 0 <= i < 12 && p == numbered[i] ==> pstate_label(p) == "P"@ + decimal(i as nat)
            &&& (forall|k: int| 0 <= k < 12 ==> p != #[trigger] numbered[k]) ==> pstate_label(p)
                == "P?"@
        }),
{
    let numbered = seq![
        PerformanceState::Zero,
        PerformanceState::One,
        PerformanceState::Two,
        PerformanceState::Three,
        PerformanceState::Four,
        PerformanceState::Five,
        PerformanceState::Six,
        PerformanceState::Seven,
        PerformanceState::Eight,
        PerformanceState::Nine,
        PerformanceState::Ten,
        PerformanceState::Eleven,
    ];
    assert(numbered[0] == PerformanceState::Zero && numbered[1] == PerformanceState::One
        && numbered[2] == PerformanceState::Two && numbered[3] == PerformanceState::Three
        && numbered[4] == PerformanceState::Four && numbered[5] == PerformanceState::Five
        && numbered[6] == PerformanceState::Six && numbered[7] == PerformanceState::Seven
        && numbered[8] == PerformanceState::Eight && numbered[9] == PerformanceState::Nine
        && numbered[10] == PerformanceState::Ten && numbered[11] == PerformanceState::Eleven);
}

/// The text of a failed reading ends with the whole error; where the GPU is
/// missing, its index comes first, and a failed query says no more than the
/// error.
pub proof fn law_failed_readings_keep_the_error(index: u32, e: String)
    ensures
        probe_error_text(index, ProbeError::Query(e)) == e@,
        probe_error_text(index, ProbeError::NotFound(e)) == "gpu "@ + decimal(index as nat)
            + " not found: "@ + e@,
{
}

/// The newest command decides: whatever came before it, the baseline is the
/// one that it names, and without a command nothing changes. It is logged
/// exactly where it names another baseline than the one in force.
pub proof fn law_newest_baseline_wins(cfg: Config, earlier: Seq<Command>, gen: u32, width: u32)
    ensures
        ({
            let before = commanded(cfg, earlier);
            let all = earlier.push(Command::SetBaseline { gen, width });
            let after = commanded(cfg, all);
            &&& after.baseline_gen == gen
            &&& after.baseline_width == width
            &&& after == (Config { baseline_gen: gen, baseline_width: width, ..cfg })
            &&& before.baseline_gen == gen && before.baseline_width == width ==> command_notices(
                cfg,
                all,
            ) == command_notices(cfg, earlier)
            &&& before.baseline_gen != gen || before.baseline_width != width ==> command_notices(
                cfg,
                all,
            ) == command_notices(cfg, earlier).push("baseline updated to "@ + link_text(gen, width))
        }),
        commanded(cfg, seq![]) == cfg,
        command_notices(cfg, seq![]).len() == 0,
{
    let all = earlier.push(Command::SetBaseline { gen, width });
    assert(all.drop_last() == earlier);
    assert(all.last() == Command::SetBaseline { gen, width });
    let line = baseline_notice(gen, width);
    assert(command_notices(cfg, earlier) + seq![line] == command_notices(cfg, earlier).push(line));
    assert(command_notices(cfg, earlier) + Seq::<Seq<char>>::empty() == command_notices(
        cfg,
        earlier,
    ));
}

/// The poller waits on while less time has passed than the interval has
/// milliseconds, and no longer: a longer interval never ends a wait that a
/// shorter one does not.
pub proof fn law_poller_waits_out_the_interval(look: Look, longer_ms: u64)
    ensures
        look.waits_on() <==> look.elapsed_ns < look.poll_ms * 1_000_000,
        look.waits_on() && longer_ms >= look.poll_ms ==> (Look {
            poll_ms: longer_ms,
            ..look
        }).waits_on(),
{
}

/// Only a link worse than its baseline ever alarms.
pub proof fn law_link_at_baseline_is_normal(cfg: Config, s: Sample, bad_width: u32)
    requires
        s.width >= cfg.baseline_width,
        s.gen >= cfg.baseline_gen,
    ensures
        sample_level(cfg, s, bad_width) == Level::Normal,
{
}

/// A speed drop of an idle GPU is power management, and does not alarm.
pub proof fn law_idle_speed_drop_is_normal(cfg: Config, s: Sample, bad_width: u32)
    requires
        s.width >= cfg.baseline_width,
        s.util < cfg.util_active_threshold,
    ensures
        sample_level(cfg, s, bad_width) == Level::Normal,
{
}

/// A speed drop under load at full width warns, and no more.
pub proof fn law_speed_drop_under_load_warns(cfg: Config, s: Sample, bad_width: u32)
    requires
        s.width >= cfg.baseline_width,
        s.gen < cfg.baseline_gen,
        s.util >= cfg.util_active_threshold,
    ensures
        sample_level(cfg, s, bad_width) == Level::Warn,
{
}

/// Power management does not touch the width: with a low width, neither the
/// speed nor the load has a say in the level.
pub proof fn law_low_width_ignores_speed_and_load(cfg: Config, a: Sample, b: Sample, bad_width: u32)
    requires
        a.width < cfg.baseline_width,
        b.width < cfg.baseline_width,
    ensures
        sample_level(cfg, a, bad_width) == sample_level(cfg, b, bad_width),
        sample_level(cfg, a, bad_width) != Level::Normal,
{
}

/// Only a low width degrades the link, and no sample by itself makes it lost.
pub proof fn law_degraded_means_low_width(cfg: Config, s: Sample, bad_width: u32)
    ensures
        sample_level(cfg, s, bad_width) == Level::Degraded ==> s.width < cfg.baseline_width,
        sample_level(cfg, s, bad_width) != Level::Lost,
{
}

/// A sample at full width starts the debounce over: what came before it has no
/// say in the levels after it.
pub proof fn law_width_recovery_resets(p: Poller, q: Poller, s: Sample)
    requires
        p.cfg == q.cfg,
        s.width >= p.cfg.baseline_width,
    ensures
        p.sampled(s) == q.sampled(s),
        p.sampled(s).bad_width == 0,
{
}

/// The settings stay as they are while samples come in.
pub proof fn law_sampling_keeps_settings(p: Poller, samples: Seq<Sample>)
    ensures
        p.sampled_all(samples).cfg == p.cfg,
    decreases samples.len(),
{
    if samples.len() > 0 {
        law_sampling_keeps_settings(p, samples.drop_last());
    }
}

/// The count is the length of the unbroken run of low-width samples at the end
/// of the history, up to the largest number that it can hold; the run goes on
/// from what the poller had counted before. A low sample degrades the link
/// exactly where that run is as long as the settings ask for.
pub proof fn law_count_is_the_low_run(p: Poller, samples: Seq<Sample>)
    ensures
        p.sampled_all(samples).bad_width == ({
            let run = low_run(p.cfg, samples, p.bad_width as nat);
            if run <= u32::MAX {
                run as int
            } else {
                u32::MAX as int
            }
        }),
        samples.len() > 0 && low_width(p.cfg, samples.last()) ==> p.sampled_all(samples).last_level
            == Some(
            if low_run(p.cfg, samples, p.bad_width as nat) >= p.cfg.width_debounce {
                Level::Degraded
            } else {
                Level::Warn
            },
        ),
    decreases samples.len(),
{
    if samples.len() > 0 {
        law_sampling_keeps_settings(p, samples.drop_last());
        law_count_is_the_low_run(p, samples.drop_last());
    }
}

/// A run is so long exactly where so many samples at the end are low.
proof fn lemma_low_run_is_a_low_end(cfg: Config, samples: Seq<Sample>, count: nat)
    requires
        count > 0,
    ensures
        low_run(cfg, samples, 0) >= count <==> low_end(cfg, samples, count),
        low_run(cfg, samples, 0) <= samples.len(),
    decreases samples.len(),
{
    if samples.len() > 0 {
        let before = samples.drop_last();
        let fewer = (count - 1) as nat;
        if fewer > 0 {
            lemma_low_run_is_a_low_end(cfg, before, fewer);
        } else {
            lemma_low_run_is_a_low_end(cfg, before, 1);
        }
        if low_end(cfg, samples, count) {
            assert(low_width(cfg, samples[samples.len() - 1]));
            assert forall|i: int| before.len() - fewer <= i < before.len() implies low_width(
                cfg,
                #[trigger] before[i],
            ) by {
                assert(before[i] == samples[i]);
            }
        }
        if low_width(cfg, samples.last()) && low_end(cfg, before, fewer) {
            assert forall|i: int| samples.len() - count <= i < samples.len() implies low_width(
                cfg,
                #[trigger] samples[i],
            ) by {
                if i < before.len() {
                    assert(before[i] == samples[i]);
                }
            }
        }
    }
}

/// Whatever came before, the link is degraded exactly where the last samples
/// are low, as many as the settings ask for (the last one, where they ask for
/// none); short of that, a low width or a speed drop under load warns, and all
/// else is normal.
pub proof fn law_width_drop_debounces(p: Poller, samples: Seq<Sample>)
    requires
        p.bad_width == 0,
        samples.len() > 0,
    ensures
        p.sampled_all(samples).last_level == Some(
            if low_end(p.cfg, samples, confirming(p.cfg)) {
                Level::Degraded
            } else if low_width(p.cfg, samples.last()) || !healthy(p.cfg, samples.last()) {
                Level::Warn
            } else {
                Level::Normal
            },
        ),
        low_end(p.cfg, samples, confirming(p.cfg)) <==> low_run(p.cfg, samples, 0) >= confirming(
            p.cfg,
        ),
{
    let before = samples.drop_last();
    law_sampling_keeps_settings(p, before);
    law_count_is_the_low_run(p, before);
    lemma_low_run_is_a_low_end(p.cfg, samples, confirming(p.cfg));
}

/// Only changes of level are logged: a sample at the level of the one before
/// it gets no line, and one at another level gets one.
pub proof fn law_only_level_changes_are_logged(p: Poller, first: Sample, second: Sample)
    ensures
        p.sampled(first).sample_line(second) is None <==> p.sampled(first).level_for(second)
            == p.level_for(first),
{
}

/// A healthy link, which may be slow while the GPU is idle, writes at most one
/// line, at its first sample, however long it runs.
pub proof fn law_healthy_link_logs_once(p: Poller, samples: Seq<Sample>, next: Sample)
    requires
        samples.len() > 0,
        forall|i: int| 0 <= i < samples.len() ==> healthy(p.cfg, #[trigger] samples[i]),
        healthy(p.cfg, next),
    ensures
        p.sampled_all(samples).sample_line(next) is None,
{
    law_sampling_keeps_settings(p, samples.drop_last());
    assert(healthy(p.cfg, samples[samples.len() - 1]));
}

/// Commands touch the baseline alone.
pub proof fn law_commands_touch_only_the_baseline(cfg: Config, commands: Seq<Command>)
    ensures
        ({
            let after = commanded(cfg, commands);
            &&& after.gpu_index == cfg.gpu_index
            &&& after.poll_ms == cfg.poll_ms
            &&& after.width_debounce == cfg.width_debounce
            &&& after.util_active_threshold == cfg.util_active_threshold
            &&& cfg.in_range() ==> after.in_range()
        }),
{
}

/// It does not matter on which wakes the commands are looked at: all at once
/// or in two portions, the settings and the log come out the same.
pub proof fn law_draining_in_portions(cfg: Config, first: Seq<Command>, second: Seq<Command>)
    ensures
        commanded(cfg, first + second) == commanded(commanded(cfg, first), second),
        command_notices(cfg, first + second) == command_notices(cfg, first) + command_notices(
            commanded(cfg, first),
            second,
        ),
    decreases second.len(),
{
    if second.len() == 0 {
        assert(first + second == first);
    } else {
        assert((first + second).last() == second.last());
        assert((first + second).drop_last() == first + second.drop_last());
        law_draining_in_portions(cfg, first, second.drop_last());
    }
}

/// A command that repeats the baseline in force says nothing and does nothing.
pub proof fn law_repeated_baseline_is_silent(cfg: Config, commands: Seq<Command>)
    requires
        forall|i: int|
            0 <= i < commands.len() ==> #[trigger] commands[i] == (Command::SetBaseline {
                gen: cfg.baseline_gen,
                width: cfg.baseline_width,
            }),
    ensures
        commanded(cfg, commands) == cfg,
        command_notices(cfg, commands) == Seq::<Seq<char>>::empty(),
    decreases commands.len(),
{
    if commands.len() > 0 {
        let before = commands.drop_last();
        assert forall|i: int| 0 <= i < before.len() implies #[trigger] before[i] == (
        Command::SetBaseline { gen: cfg.baseline_gen, width: cfg.baseline_width }) by {
            assert(before[i] == commands[i]);
        }
        law_repeated_baseline_is_silent(cfg, before);
        assert(commands[commands.len() - 1] == (Command::SetBaseline {
            gen: cfg.baseline_gen,
            width: cfg.baseline_width,
        }));
    }
}

/// All commands that come while the poller waits hold from the next sample on,
/// at whichever look they are found, the last one included: the next sample is
/// held against the settings that they leave, and nothing else has changed.
pub proof fn law_commands_hold_from_the_next_sample(p: Poller, looks: Seq<Look>, s: Sample)
    ensures
        p.looked_all(looks) == (Poller { cfg: commanded(p.cfg, found_commands(looks)), ..p }),
        p.looked_all(looks).level_for(s) == sample_level(
            commanded(p.cfg, found_commands(looks)),
            s,
            p.bad_width,
        ),
    decreases looks.len(),
{
    if looks.len() > 0 {
        law_commands_hold_from_the_next_sample(p, looks.drop_last(), s);
        law_draining_in_portions(p.cfg, found_commands(looks.drop_last()), looks.last().commands);
    }
}

/// A baseline that is sent while the poller waits, as the last command, is the
/// one that the next sample is held against.
pub proof fn law_new_baseline_holds_from_the_next_sample(
    p: Poller,
    looks: Seq<Look>,
    gen: u32,
    width: u32,
    s: Sample,
)
    requires
        found_commands(looks).len() > 0,
        found_commands(looks).last() == (Command::SetBaseline { gen, width }),
    ensures
        p.looked_all(looks).level_for(s) == sample_level(
            Config { baseline_gen: gen, baseline_width: width, ..p.cfg },
            s,
            p.bad_width,
        ),
        p.looked_all(looks).sampled(s).cfg == (Config {
            baseline_gen: gen,
            baseline_width: width,
            ..p.cfg
        }),
{
    law_commands_hold_from_the_next_sample(p, looks, s);
}

/// An interval that is set while the poller waits ends the wait in time: not
/// before it is over, and, but for what the system adds, within half a second
/// after both the change and the end of the interval. A poller waits that
/// looks more than once, or whose only look comes no later than the change.
pub proof fn law_new_interval_applies_within_a_pause(
    looks: Seq<Look>,
    change: int,
    new_ms: u64,
    delay_ns: nat,
)
    requires
        is_wait(looks),
        paced(looks, delay_ns),
        interval_set(looks, change, new_ms),
    ensures
        change <= looks.last().elapsed_ns ==> looks.last().elapsed_ns >= new_ms * 1_000_000,
        looks.len() > 1 || looks[0].elapsed_ns <= change ==> looks.last().elapsed_ns <= (if change
            >= new_ms * 1_000_000 {
            change
        } else {
            new_ms * 1_000_000
        }) + 500 * 1_000_000 + delay_ns,
{
    let last = looks.len() - 1;
    assert(looks[last] == looks.last());
    if last > 0 {
        assert(looks[last - 1].waits_on());
        assert(looks[last].elapsed_ns <= looks[last - 1].elapsed_ns + WAKE_MS * 1_000_000
            + delay_ns);
    }
}

} // verus!
