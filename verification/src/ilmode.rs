use vstd::prelude::*;

verus! {

/// The pickup flags of the stats points and boards.
pub const STATS_AND_BOARDS_MASK: u32 = 0x01f8_0000;

/// Whether the level numbered `level` is a competition: Rio, Skater Island and Tokyo.
pub open spec fn spec_is_comp_level(level: usize) -> bool {
    level == 3 || level == 6 || level == 8
}

/// Whether retries on `level` reset its progress: a known level that is no competition.
pub open spec fn resets_progress(level: usize) -> bool {
    level < 10 && !spec_is_comp_level(level)
}

pub fn is_comp_level(level: usize) -> (r: bool)
    requires
        level < 10,
    ensures
        r == spec_is_comp_level(level),
{
    level == 3 || level == 6 || level == 8
}

/// The career progress of a level as the game stores it, to write back.
#[derive(Clone, Copy, Debug, PartialEq, Eq, Structural)]
pub struct LevelProgress {
    pub goals: u32,
    pub someflags: u32,
    pub pickups: u32,
}

/// Individual-level mode: each retry of a level starts it without progress, and leaving
/// the level gives the progress made back.
pub struct ILModeContext {
    pub enabled: bool,
    pub old_level: usize,
    pub old_progress: u32,
    pub old_pickups: u32,
}

impl ILModeContext {
    pub fn new(enabled: bool) -> (r: Self)
        ensures
            r == (ILModeContext { enabled, old_level: 0, old_progress: 0, old_pickups: 0 }),
    {
        ILModeContext { enabled, old_level: 0, old_progress: 0, old_pickups: 0 }
    }

    /// A retry of `level` in career mode, whose stored goals and pickups are `goals` and
    /// `pickups`. On a level that resets: the first retry there remembers its progress,
    /// later ones add what was gained; the level is written back without goals, without
    /// its stats and board pickups and with cleared flags.
    pub fn retry(&mut self, level: usize, goals: u32, pickups: u32) -> (r: Option<LevelProgress>)
        requires
            resets_progress(level) ==> level >= 1,
        ensures
            (*final(self), r) == spec_retry(*old(self), level, goals, pickups),
    {
        if level < 10 && !is_comp_level(level) {
            if level != self.old_level {
                self.old_level = level;
                self.old_progress = goals;
                self.old_pickups = pickups;
            }
            if goals & self.old_progress != goals {
                self.old_progress = goals | self.old_progress;
            }
            let pickup_flags = pickups & STATS_AND_BOARDS_MASK;
            if pickup_flags & self.old_pickups != pickup_flags {
                self.old_pickups = pickup_flags | self.old_pickups;
            }
            proof {
                let p = self.old_progress;
                let o = self.old_pickups;
                assert(goals & p == goals ==> p == (goals | p)) by (bit_vector);
                assert(pickup_flags & o == pickup_flags ==> o == (pickup_flags | o)) by (bit_vector);
                assert((goals | (goals | p)) == (goals | p)) by (bit_vector);
                assert((pickup_flags | (pickup_flags | o)) == (pickup_flags | o)) by (bit_vector);
            }
            Some(LevelProgress { goals: 0, someflags: 0, pickups: pickups ^ pickup_flags })
        } else {
            None
        }
    }

    /// Leaving for another level: where the remembered level resets, its remembered goals
    /// and pickups are added back to what is stored, `goals` and `pickups`.
    pub fn restore(&self, goals: u32, pickups: u32) -> (r: Option<(u32, u32)>)
        ensures
            r == spec_restore(*self, goals, pickups),
    {
        if self.old_level != 0 && self.old_level < 10 && !is_comp_level(self.old_level) {
            Some((goals | self.old_progress, pickups | self.old_pickups))
        } else {
            None
        }
    }
}

/// What a retry does; see `ILModeContext::retry`.
pub open spec fn spec_retry(c: ILModeContext, level: usize, goals: u32, pickups: u32) -> (
    ILModeContext,
    Option<LevelProgress>,
) {
    if !resets_progress(level) {
        (c, None)
    } else {
        let first = level != c.old_level;
        let progress = if first {
            goals
        } else {
            c.old_progress
        };
        let saved = if first {
            pickups
        } else {
            c.old_pickups
        };
        let pf = pickups & STATS_AND_BOARDS_MASK;
        (
            ILModeContext {
                enabled: c.enabled,
                old_level: level,
                old_progress: goals | progress,
                old_pickups: pf | saved,
            },
            Some(LevelProgress { goals: 0, someflags: 0, pickups: pickups ^ pf }),
        )
    }
}

/// What leaving a level gives back; see `ILModeContext::restore`.
pub open spec fn spec_restore(c: ILModeContext, goals: u32, pickups: u32) -> Option<(u32, u32)> {
    if c.old_level != 0 && resets_progress(c.old_level) {
        Some((goals | c.old_progress, pickups | c.old_pickups))
    } else {
        None
    }
}

/// A first retry on a level that resets, followed by leaving it, gives back exactly the
/// goals and pickups that were stored before the retry.
pub proof fn lemma_retry_then_restore(c: ILModeContext, level: usize, goals: u32, pickups: u32)
    requires
        resets_progress(level),
        level >= 1,
        level != c.old_level,
    ensures
        ({
            let (c2, r) = spec_retry(c, level, goals, pickups);
            r matches Some(p) && spec_restore(c2, p.goals, p.pickups) == Some((goals, pickups))
        }),
{
    assert((0u32 | (goals | goals)) == goals) by (bit_vector);
    assert(((pickups ^ (pickups & 0x01f8_0000u32)) | ((pickups & 0x01f8_0000u32) | pickups))
        == pickups) by (bit_vector);
}

/// However often a level is retried, leaving it gives back at least the goals of the
/// first retry: the remembered progress only grows.
pub proof fn lemma_progress_only_grows(c: ILModeContext, level: usize, goals: u32, pickups: u32)
    requires
        resets_progress(level),
        level == c.old_level,
    ensures
        (spec_retry(c, level, goals, pickups).0.old_progress & c.old_progress) == c.old_progress,
        (spec_retry(c, level, goals, pickups).0.old_pickups & c.old_pickups) == c.old_pickups,
{
    let p = c.old_progress;
    let o = c.old_pickups;
    assert(((goals | p) & p) == p) by (bit_vector);
    assert((((pickups & 0x01f8_0000u32) | o) & o) == o) by (bit_vector);
}

} // verus!
