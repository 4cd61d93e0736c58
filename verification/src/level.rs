//! The alarm levels of the monitor.

use vstd::prelude::*;

verus! {

/// How the link looks.
#[derive(Clone, Copy, PartialEq, Eq, Debug, Structural)]
pub enum Level {
    /// The link is at its baseline, or slower while the GPU is idle.
    Normal,
    /// A speed drop under load, or a width drop that is not yet confirmed.
    Warn,
    /// A sustained loss of lanes.
    Degraded,
    /// No samples: the GPU is off the bus, or the driver hangs.
    Lost,
}

impl Level {
    /// The name of the level.
    pub open spec fn name_text(self) -> Seq<char> {
        match self {
            Level::Normal => "Normal"@,
            Level::Warn => "Warn"@,
            Level::Degraded => "Degraded"@,
            Level::Lost => "Lost"@,
        }
    }

    /// The colour of the level: green, amber, orange, red.
    pub open spec fn rgb(self) -> (u8, u8, u8) {
        match self {
            Level::Normal => (86, 198, 108),
            Level::Warn => (255, 183, 3),
            Level::Degraded => (255, 138, 0),
            Level::Lost => (239, 65, 58),
        }
    }

    /// The red, green and blue of the tray icon at this level.
    pub fn color(self) -> (res: (u8, u8, u8))
        ensures
            res == self.rgb(),
    {
        match self {
            Level::Normal => (86, 198, 108),
            Level::Warn => (255, 183, 3),
            Level::Degraded => (255, 138, 0),
            Level::Lost => (239, 65, 58),
        }
    }

    /// The name of the level, as the log writes it.
    pub fn name(self) -> (res: &'static str)
        ensures
            res@ == self.name_text(),
    {
        match self {
            Level::Normal => "Normal",
            Level::Warn => "Warn",
            Level::Degraded => "Degraded",
            Level::Lost => "Lost",
        }
    }
}

/// The colour tells the level.
pub proof fn law_colors_are_distinct(a: Level, b: Level)
    ensures
        a.rgb() == b.rgb() ==> a == b,
{
}

/// The worse the level, the farther its colour lies from green: a normal link
/// is more green than red, any other more red than green, and from a warning
/// on, less green with each step.
pub proof fn law_colors_go_from_green_to_red(level: Level)
    ensures
        level.rgb().1 > level.rgb().0 <==> level == Level::Normal,
        level.rgb().1 < level.rgb().0 <==> level != Level::Normal,
        Level::Warn.rgb().1 > Level::Degraded.rgb().1 > Level::Lost.rgb().1,
{
}

/// The name tells the level, and is the word for it.
pub proof fn law_names_tell_the_level(a: Level, b: Level)
    ensures
        a.name_text() == b.name_text() ==> a == b,
        a.name_text() == "Normal"@ <==> a == Level::Normal,
        a.name_text() == "Warn"@ <==> a == Level::Warn,
        a.name_text() == "Degraded"@ <==> a == Level::Degraded,
        a.name_text() == "Lost"@ <==> a == Level::Lost,
{
    reveal_strlit("Normal");
    reveal_strlit("Warn");
    reveal_strlit("Degraded");
    reveal_strlit("Lost");
    assert("Normal"@[0] == 'N' && "Warn"@[0] == 'W' && "Degraded"@[0] == 'D' && "Lost"@[0] == 'L');
}

} // verus!
