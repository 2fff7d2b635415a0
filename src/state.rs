//! The launcher's persistent settings and play-time statistics.

use vstd::prelude::*;
use crate::text::{decimal, push_decimal, push_str, str_eq};
use crate::version::{GameVersion, ShaderQuality};

verus! {

/// The server the launcher pins and probes.
pub const SERVER_ADDRESS: &'static str = "144.31.169.7:25565";

/// The host and port of the pinned server.
pub const SERVER_HOST: &'static str = "144.31.169.7";

pub const SERVER_PORT: u16 = 25565;

/// The launcher's own release.
pub const CURRENT_VERSION: &'static str = "1.1.0";

/// Where the launcher's latest release is described.
pub const GITHUB_RELEASES_API: &'static str = "https://api.github.com/repos/PRISSET/Launcher/releases/latest";

/// The installer asset of a launcher release.
pub const INSTALLER_NAME: &'static str = "ByStep-Launcher-Setup.exe";

/// What the player chose.
#[derive(Debug, Clone)]
pub struct LauncherSettings {
    pub nickname: String,
    pub ram_gb: u32,
    pub selected_version: GameVersion,
    pub shader_quality: ShaderQuality,
}

impl Default for LauncherSettings {
    fn default() -> (r: LauncherSettings)
        ensures
            r.nickname@.len() == 0,
            r.ram_gb == 4,
            r.selected_version == GameVersion::Fabric1_21_1,
            r.shader_quality == ShaderQuality::High,
    {
        LauncherSettings {
            nickname: String::new(),
            ram_gb: 4,
            selected_version: GameVersion::Fabric1_21_1,
            shader_quality: ShaderQuality::High,
        }
    }
}

/// The pages of the launcher window.
#[derive(Debug, Clone, Copy, PartialEq, Eq, Structural)]
pub enum Tab {
    Dashboard,
    Statistics,
    Settings,
}

/// What a check for a newer launcher release found.
#[derive(Debug, Clone)]
pub enum UpdateResult {
    NoUpdate,
    /// A newer release: its version and the installer's URL.
    UpdateAvailable(String, String),
    Downloading(String),
    /// The installer was saved at this path.
    Downloaded(String),
    Error(String),
}

/// Seconds played, per day (`YYYY-MM-DD`) and in total.
#[derive(Debug, Clone)]
pub struct PlayTimeStats {
    pub daily: Vec<(String, u64)>,
    pub total_seconds: u64,
}

pub open spec fn sat_inc(x: u64) -> u64 {
    if x < u64::MAX { (x + 1) as u64 } else { x }
}

impl PlayTimeStats {
    /// Each day appears at most once.
    pub open spec fn wf(&self) -> bool {
        forall|i: int, j: int|
            0 <= i < j < self.daily@.len() ==> #[trigger] self.daily@[i].0@ != #[trigger] self.daily@[j].0@
    }

    /// The seconds recorded for a day.
    pub open spec fn day_seconds(&self, day: Seq<char>) -> u64 {
        if exists|i: int| 0 <= i < self.daily@.len() && self.daily@[i].0@ == day {
            self.daily@[choose|i: int| 0 <= i < self.daily@.len() && self.daily@[i].0@ == day].1
        } else {
            0
        }
    }

    /// No time recorded.
    pub fn new() -> (r: PlayTimeStats)
        ensures
            r.wf(),
            r.total_seconds == 0,
            r.daily@.len() == 0,
    {
        PlayTimeStats { daily: Vec::new(), total_seconds: 0 }
    }

    /// Records one more second of play on `day`; counts stop at their maximum.
    pub fn record_second(&mut self, day: &str)
        requires
            old(self).wf(),
        ensures
            final(self).wf(),
            final(self).total_seconds == sat_inc(old(self).total_seconds),
            final(self).day_seconds(day@) == sat_inc(old(self).day_seconds(day@)),
            forall|d: Seq<char>| d != day@ ==> final(self).day_seconds(d) == old(self).day_seconds(d),
    {
        self.total_seconds = if self.total_seconds < u64::MAX { self.total_seconds + 1 } else { self.total_seconds };
        let mut i: usize = 0;
        while i < self.daily.len()
            invariant
                i <= self.daily@.len(),
                self.daily@ == old(self).daily@,
                old(self).wf(),
                self.total_seconds == sat_inc(old(self).total_seconds),
                forall|j: int| 0 <= j < i ==> self.daily@[j].0@ != day@,
            decreases self.daily@.len() - i,
        {
            if str_eq(self.daily[i].0.as_str(), day) {
                let v = self.daily[i].1;
                let nv = if v < u64::MAX { v + 1 } else { v };
                let key = self.daily[i].0.clone();
                let ghost before = self.daily@;
                self.daily.set(i, (key, nv));
                proof {
                    let old_s = *old(self);
                    assert(before == old_s.daily@);
                    assert(old_s.daily@[i as int].0@ == day@);
                    assert forall|j: int| 0 <= j < self.daily@.len() && self.daily@[j].0@ == day@ implies j == i by {
                        if j != i {
                            assert(before[j].0@ == day@);
                            if j < i {
                                assert(before[j].0@ != before[i as int].0@);
                            } else {
                                assert(before[i as int].0@ != before[j].0@);
                            }
                        }
                    }
                    assert forall|j: int| 0 <= j < before.len() && before[j].0@ == day@ implies j == i by {
                        if j != i {
                            if j < i {
                                assert(before[j].0@ != before[i as int].0@);
                            } else {
                                assert(before[i as int].0@ != before[j].0@);
                            }
                        }
                    }
                    assert(old_s.day_seconds(day@) == v);
                    assert(self.daily@[i as int].0@ == day@);
                    assert forall|d: Seq<char>| d != day@ implies self.day_seconds(d) == old_s.day_seconds(d) by {
                        if exists|j: int| 0 <= j < self.daily@.len() && self.daily@[j].0@ == d {
                            let j = choose|j: int| 0 <= j < self.daily@.len() && self.daily@[j].0@ == d;
                            assert(before[j].0@ == d);
                        }
                        if exists|j: int| 0 <= j < before.len() && before[j].0@ == d {
                            let j = choose|j: int| 0 <= j < before.len() && before[j].0@ == d;
                            assert(self.daily@[j].0@ == d);
                        }
                    }
                }
                return;
            }
            i = i + 1;
        }
        let mut key = String::new();
        push_str(&mut key, day);
        self.daily.push((key, 1));
        proof {
            let old_s = *old(self);
            let n = old_s.daily@.len() as int;
            assert(self.daily@[n].0@ == day@);
            assert forall|j: int| 0 <= j < self.daily@.len() && self.daily@[j].0@ == day@ implies j == n by {
                if j < n {
                    assert(old_s.daily@[j].0@ == day@);
                }
            }
            assert forall|d: Seq<char>| d != day@ implies self.day_seconds(d) == old_s.day_seconds(d) by {
                if exists|j: int| 0 <= j < self.daily@.len() && self.daily@[j].0@ == d {
                    let j = choose|j: int| 0 <= j < self.daily@.len() && self.daily@[j].0@ == d;
                    assert(j < n);
                    assert(old_s.daily@[j].0@ == d);
                }
                if exists|j: int| 0 <= j < old_s.daily@.len() && old_s.daily@[j].0@ == d {
                    let j = choose|j: int| 0 <= j < old_s.daily@.len() && old_s.daily@[j].0@ == d;
                    assert(self.daily@[j].0@ == d);
                }
            }
        }
    }
}

/// Play time as shown: hours and minutes, or minutes alone under an hour.
pub open spec fn play_time_text(seconds: u64) -> Seq<char> {
    let h = seconds / 3600;
    let m = (seconds % 3600) / 60;
    if h > 0 {
        decimal(h as nat) + "ч "@ + decimal(m as nat) + "м"@
    } else {
        decimal(m as nat) + "м"@
    }
}

/// Renders a number of seconds of play.
pub fn format_play_time(seconds: u64) -> (r: String)
    ensures
        r@ == play_time_text(seconds),
{
    let h = seconds / 3600;
    let m = (seconds % 3600) / 60;
    let mut s = String::new();
    if h > 0 {
        push_decimal(&mut s, h);
        push_str(&mut s, "ч ");
    }
    push_decimal(&mut s, m);
    push_str(&mut s, "м");
    assert(s@ =~= play_time_text(seconds));
    s
}

/// Statistics are saved once a minute of a session.
pub fn is_save_tick(session_seconds: u64) -> (r: bool)
    ensures
        r == (session_seconds % 60 == 0),
{
    session_seconds % 60 == 0
}

} // verus!
