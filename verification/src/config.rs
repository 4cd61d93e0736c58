//! The settings of the monitor and the rules for the configuration file.

use vstd::prelude::*;
use vstd::string::*;
use crate::text::{decimal, push_decimal, text_if, texts};

verus! {

/// Shortest poll interval that a configuration file can ask for.
pub const MIN_POLL_MS: u64 = 1_000;

/// Longest poll interval that a configuration file can ask for.
pub const MAX_POLL_MS: u64 = 3_600_000;

/// Bounds of the number of low-width polls in a row that count as degraded.
pub const MIN_DEBOUNCE: u32 = 1;

pub const MAX_DEBOUNCE: u32 = 10;

/// Largest utilization threshold, in percent.
pub const MAX_UTIL: u32 = 100;

/// The settings of the monitor.
#[derive(Clone, Copy, Debug, PartialEq, Eq, Structural)]
pub struct Config {
    pub gpu_index: u32,
    pub baseline_gen: u32,
    pub baseline_width: u32,
    pub poll_ms: u64,
    pub width_debounce: u32,
    pub util_active_threshold: u32,
}

/// What was found in place of the configuration file.
#[derive(Clone, Copy, Debug, PartialEq, Eq, Structural)]
pub enum ConfigFile {
    /// No readable file: a first run.
    Missing,
    /// A file that does not hold a configuration.
    Unparseable,
    /// The configuration as it was written down.
    Parsed(Config),
}

/// `value` moved to the nearer end where it lies outside `low..=high`.
pub open spec fn clamped(value: int, low: int, high: int) -> int {
    if value < low {
        low
    } else if value > high {
        high
    } else {
        value
    }
}

impl Config {
    /// The settings of a first run: a Gen3 x16 link.
    pub open spec fn initial() -> Config {
        Config {
            gpu_index: 0,
            baseline_gen: 3,
            baseline_width: 16,
            poll_ms: 5000,
            width_debounce: 3,
            util_active_threshold: 20,
        }
    }

    /// Whether every setting lies in its sane range.
    pub open spec fn in_range(self) -> bool {
        &&& MIN_POLL_MS <= self.poll_ms <= MAX_POLL_MS
        &&& MIN_DEBOUNCE <= self.width_debounce <= MAX_DEBOUNCE
        &&& self.util_active_threshold <= MAX_UTIL
    }

    /// The settings with each value that is out of range moved to the nearer
    /// bound.
    pub open spec fn sane(self) -> Config {
        Config {
            poll_ms: clamped(self.poll_ms as int, MIN_POLL_MS as int, MAX_POLL_MS as int) as u64,
            width_debounce: clamped(
                self.width_debounce as int,
                MIN_DEBOUNCE as int,
                MAX_DEBOUNCE as int,
            ) as u32,
            util_active_threshold: clamped(
                self.util_active_threshold as int,
                0,
                MAX_UTIL as int,
            ) as u32,
            ..self
        }
    }
}

impl Default for Config {
    /// Gen3 x16 is a conservative default: only a link worse than the baseline
    /// ever alarms, so it is safe on faster platforms too.
    fn default() -> (res: Config)
        ensures
            res == Config::initial(),
    {
        Config {
            gpu_index: 0,
            baseline_gen: 3,
            baseline_width: 16,
            poll_ms: 5000,
            width_debounce: 3,
            util_active_threshold: 20,
        }
    }
}

/// The complaint about a setting that is out of range.
pub open spec fn clamp_notice(name: Seq<char>, found: nat, used: nat) -> Seq<char> {
    "config: "@ + name + " "@ + decimal(found) + " out of range — clamped to "@ + decimal(used)
}

/// The complaint about a file that holds no configuration.
pub open spec fn unparseable_notice() -> Seq<char> {
    "config.json unparseable — using defaults"@
}

/// The settings that a configuration file leads to.
pub open spec fn loaded_config(file: ConfigFile) -> Config {
    match file {
        ConfigFile::Parsed(cfg) => cfg.sane(),
        _ => Config::initial(),
    }
}

/// The complaints about a configuration file, in the order of the settings.
pub open spec fn load_notices(file: ConfigFile) -> Seq<Seq<char>> {
    match file {
        ConfigFile::Missing => seq![],
        ConfigFile::Unparseable => seq![unparseable_notice()],
        ConfigFile::Parsed(cfg) => {
            let sane = cfg.sane();
            text_if(
                sane.poll_ms != cfg.poll_ms,
                clamp_notice("poll_ms"@, cfg.poll_ms as nat, sane.poll_ms as nat),
            ) + text_if(
                sane.width_debounce != cfg.width_debounce,
                clamp_notice(
                    "width_debounce"@,
                    cfg.width_debounce as nat,
                    sane.width_debounce as nat,
                ),
            ) + text_if(
                sane.util_active_threshold != cfg.util_active_threshold,
                clamp_notice(
                    "util_active_threshold"@,
                    cfg.util_active_threshold as nat,
                    sane.util_active_threshold as nat,
                ),
            )
        },
    }
}

fn clamp(value: u64, low: u64, high: u64) -> (res: u64)
    requires
        low <= high,
    ensures
        res == clamped(value as int, low as int, high as int),
{
    if value < low {
        low
    } else if value > high {
        high
    } else {
        value
    }
}

fn notice(name: &str, found: u64, used: u64) -> (res: String)
    ensures
        res@ == clamp_notice(name@, found as nat, used as nat),
{
    let mut out: String = "config: ".to_owned();
    out.append(name);
    out.append(" ");
    push_decimal(&mut out, found);
    out.append(" out of range — clamped to ");
    push_decimal(&mut out, used);
    out
}

/// Decides on the settings to run with, given what was found in place of the
/// configuration file, and on the lines to log about it. A hand-edited value
/// that is out of range is moved to the nearer bound: a zero or absurd poll
/// interval would busy-loop the poller or disable the watchdog.
pub fn load_config(file: ConfigFile) -> (res: (Config, Vec<String>))
    ensures
        res.0 == loaded_config(file),
        texts(res.1@) == load_notices(file),
{
    let mut log: Vec<String> = Vec::new();
    match file {
        ConfigFile::Missing => (Config::default(), log),
        ConfigFile::Unparseable => {
            log.push("config.json unparseable — using defaults".to_owned());
            (Config::default(), log)
        },
        ConfigFile::Parsed(found) => {
            let mut cfg: Config = found;
            let poll_ms: u64 = clamp(cfg.poll_ms, MIN_POLL_MS, MAX_POLL_MS);
            if poll_ms != cfg.poll_ms {
                log.push(notice("poll_ms", cfg.poll_ms, poll_ms));
                cfg.poll_ms = poll_ms;
            }
            let debounce: u64 = clamp(
                cfg.width_debounce as u64,
                MIN_DEBOUNCE as u64,
                MAX_DEBOUNCE as u64,
            );
            if debounce != cfg.width_debounce as u64 {
                log.push(notice("width_debounce", cfg.width_debounce as u64, debounce));
                cfg.width_debounce = debounce as u32;
            }
            let threshold: u64 = clamp(cfg.util_active_threshold as u64, 0, MAX_UTIL as u64);
            if threshold != cfg.util_active_threshold as u64 {
                log.push(
                    notice("util_active_threshold", cfg.util_active_threshold as u64, threshold),
                );
                cfg.util_active_threshold = threshold as u32;
            }
            (cfg, log)
        },
    }
}

/// Whatever the file holds, the settings that result are in range.
pub proof fn law_loaded_config_in_range(file: ConfigFile)
    ensures
        loaded_config(file).in_range(),
{
}

/// A configuration that is in range is taken as it is and without complaint.
pub proof fn law_in_range_config_is_kept(cfg: Config)
    requires
        cfg.in_range(),
    ensures
        loaded_config(ConfigFile::Parsed(cfg)) == cfg,
        load_notices(ConfigFile::Parsed(cfg)) == Seq::<Seq<char>>::empty(),
{
}

/// There is a complaint about a parsed file exactly where a value was out of
/// range.
pub proof fn law_notice_iff_out_of_range(cfg: Config)
    ensures
        (load_notices(ConfigFile::Parsed(cfg)).len() == 0) <==> cfg.in_range(),
{
}

/// Loading a configuration that was loaded and saved before changes nothing.
pub proof fn law_loading_is_idempotent(file: ConfigFile)
    ensures
        loaded_config(ConfigFile::Parsed(loaded_config(file))) == loaded_config(file),
        load_notices(ConfigFile::Parsed(loaded_config(file))) == Seq::<Seq<char>>::empty(),
{
    law_loaded_config_in_range(file);
    law_in_range_config_is_kept(loaded_config(file));
}

/// Loading never touches the baseline, nor which GPU is watched.
pub proof fn law_loading_keeps_baseline(cfg: Config)
    ensures
        ({
            let loaded = loaded_config(ConfigFile::Parsed(cfg));
            &&& loaded.gpu_index == cfg.gpu_index
            &&& loaded.baseline_gen == cfg.baseline_gen
            &&& loaded.baseline_width == cfg.baseline_width
        }),
{
}

/// An interval between one second and one hour is kept; a shorter one becomes
/// a second and a longer one an hour.
pub proof fn law_interval_is_one_second_to_one_hour(cfg: Config)
    ensures
        ({
            let loaded = loaded_config(ConfigFile::Parsed(cfg)).poll_ms;
            &&& 1_000 <= loaded <= 3_600_000
            &&& 1_000 <= cfg.poll_ms <= 3_600_000 ==> loaded == cfg.poll_ms
            &&& cfg.poll_ms < 1_000 ==> loaded == 1_000
            &&& cfg.poll_ms > 3_600_000 ==> loaded == 3_600_000
        }),
{
}

/// A debounce of one to ten samples is kept; none becomes one, and more become
/// ten.
pub proof fn law_debounce_is_one_to_ten(cfg: Config)
    ensures
        ({
            let loaded = loaded_config(ConfigFile::Parsed(cfg)).width_debounce;
            &&& 1 <= loaded <= 10
            &&& 1 <= cfg.width_debounce <= 10 ==> loaded == cfg.width_debounce
            &&& cfg.width_debounce == 0 ==> loaded == 1
            &&& cfg.width_debounce > 10 ==> loaded == 10
        }),
{
}

/// A threshold that is a percentage is kept, and a larger one becomes the
/// whole.
pub proof fn law_threshold_is_a_percentage(cfg: Config)
    ensures
        ({
            let loaded = loaded_config(ConfigFile::Parsed(cfg)).util_active_threshold;
            &&& cfg.util_active_threshold <= 100 ==> loaded == cfg.util_active_threshold
            &&& cfg.util_active_threshold > 100 ==> loaded == 100
        }),
{
}

/// Of two files, the one that asks for more gets no less, setting by setting.
pub proof fn law_loading_keeps_the_order(a: Config, b: Config)
    ensures
        ({
            let la = loaded_config(ConfigFile::Parsed(a));
            let lb = loaded_config(ConfigFile::Parsed(b));
            &&& a.poll_ms <= b.poll_ms ==> la.poll_ms <= lb.poll_ms
            &&& a.width_debounce <= b.width_debounce ==> la.width_debounce <= lb.width_debounce
            &&& a.util_active_threshold <= b.util_active_threshold ==> la.util_active_threshold
                <= lb.util_active_threshold
        }),
{
}

/// Without a configuration the link is held against Gen3 x16 every five
/// seconds, three low samples in a row degrade it, and a GPU works from a fifth
/// of its utilization on. A first run does so in silence, a broken file with
/// one complaint.
pub proof fn law_defaults_without_a_configuration(file: ConfigFile)
    requires
        file !is Parsed,
    ensures
        loaded_config(file) == (Config {
            gpu_index: 0,
            baseline_gen: 3,
            baseline_width: 16,
            poll_ms: 5_000,
            width_debounce: 3,
            util_active_threshold: 20,
        }),
        load_notices(file).len() == if file is Unparseable {
            1nat
        } else {
            0
        },
        file is Unparseable ==> load_notices(file)[0]
            == "config.json unparseable — using defaults"@,
{
}

/// Each setting that is out of range has a complaint of its own, with its
/// name, the value that was found and the one that is used in its place; the
/// complaints come in the order of the settings.
pub proof fn law_complaints_name_the_setting(cfg: Config)
    ensures
        ({
            let notices = load_notices(ConfigFile::Parsed(cfg));
            let loaded = loaded_config(ConfigFile::Parsed(cfg));
            let poll = !(1_000 <= cfg.poll_ms <= 3_600_000);
            let debounce = !(1 <= cfg.width_debounce <= 10);
            let threshold = cfg.util_active_threshold > 100;
            let second: int = if poll {
                1
            } else {
                0
            };
            let third: int = second + if debounce {
                1int
            } else {
                0
            };
            &&& notices.len() == third + if threshold {
                1int
            } else {
                0
            }
            &&& poll ==> notices[0] == "config: "@ + "poll_ms"@ + " "@ + decimal(
                cfg.poll_ms as nat,
            ) + " out of range — clamped to "@ + decimal(loaded.poll_ms as nat)
            &&& debounce ==> notices[second] == "config: "@ + "width_debounce"@ + " "@ + decimal(
                cfg.width_debounce as nat,
            ) + " out of range — clamped to "@ + decimal(loaded.width_debounce as nat)
            &&& threshold ==> notices[third] == "config: "@ + "util_active_threshold"@ + " "@
                + decimal(cfg.util_active_threshold as nat) + " out of range — clamped to "@
                + decimal(100)
        }),
{
}

} // verus!
