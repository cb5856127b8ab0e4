//! Fighter progression: kills are spent to climb levels.

use vstd::prelude::*;

verus! {

/// Kills needed to leave level `i + 1` (index 0 is LVL 1 -> 2).
pub const PROGRESSION_POINTS: [u32; 14] = [
    12,
    25,
    50,
    100,
    200,
    400,
    800,
    1_600,
    3_200,
    6_400,
    12_800,
    25_600,
    51_200,
    102_500,
];

/// The highest level a fighter can reach.
pub const MAX_LEVEL: u32 = 15;

/// Kills needed to leave `level` (meaningful for `1 <= level < MAX_LEVEL`).
pub open spec fn points_for(level: int) -> int {
    if level == 1 { 12 }
    else if level == 2 { 25 }
    else if level == 3 { 50 }
    else if level == 4 { 100 }
    else if level == 5 { 200 }
    else if level == 6 { 400 }
    else if level == 7 { 800 }
    else if level == 8 { 1_600 }
    else if level == 9 { 3_200 }
    else if level == 10 { 6_400 }
    else if level == 11 { 12_800 }
    else if level == 12 { 25_600 }
    else if level == 13 { 51_200 }
    else { 102_500 }
}

/// Result of spending `kills` from `level`: (kills left, new level, levels gained).
/// Levels are climbed one by one for as long as the kills cover the next threshold.
pub open spec fn level_up(kills: int, level: int) -> (int, int, int)
    decreases MAX_LEVEL - level,
{
    if level < 1 || level >= MAX_LEVEL || kills < points_for(level) {
        (kills, level, 0)
    } else {
        let r = level_up(kills - points_for(level), level + 1);
        (r.0, r.1, r.2 + 1)
    }
}

/// Total kills needed to climb from level `from` to level `to`.
pub open spec fn points_between(from: int, to: int) -> int
    decreases to - from,
{
    if to <= from { 0 } else { points_for(from) + points_between(from + 1, to) }
}

/// What `level_up` leaves behind: the new level is the old one plus the levels
/// gained, exactly the thresholds crossed were paid for, and the climb stopped
/// at the top level or where the kills left no longer cover the next threshold.
pub proof fn lemma_level_up_shape(kills: int, level: int)
    requires
        1 <= level,
        0 <= kills,
    ensures
        ({
            let r = level_up(kills, level);
            &&& r.1 == level + r.2
            &&& 0 <= r.2
            &&& r.0 >= 0
            &&& kills == r.0 + points_between(level, r.1)
            &&& (level >= MAX_LEVEL ==> r.2 == 0)
            &&& (level <= MAX_LEVEL ==> r.1 <= MAX_LEVEL)
            &&& (r.1 >= MAX_LEVEL || r.0 < points_for(r.1))
        }),
    decreases MAX_LEVEL - level,
{
    if level < MAX_LEVEL && kills >= points_for(level) {
        lemma_level_up_shape(kills - points_for(level), level + 1);
    }
}

/// Levelling up is settled in one call: spending what is left again gains nothing.
pub proof fn lemma_level_up_settled(kills: int, level: int)
    requires
        1 <= level,
        0 <= kills,
    ensures
        level_up(level_up(kills, level).0, level_up(kills, level).1).2 == 0,
        level_up(level_up(kills, level).0, level_up(kills, level).1).0 == level_up(kills, level).0,
{
    lemma_level_up_shape(kills, level);
}

/// Checks if a fighter has enough kills to level up based on their current level.
/// Returns the number of levels gained.
/// Modifies kills and level in place: each level gained spends the kills it costs.
pub fn check_for_level_up(kills: &mut u32, level: &mut u32) -> (levels_gained: u32)
    requires
        *old(level) >= 1,
    ensures
        (*final(kills) as int, *final(level) as int, levels_gained as int)
            == level_up(*old(kills) as int, *old(level) as int),
        *final(level) == *old(level) + levels_gained,
        *old(kills) == *final(kills) + points_between(*old(level) as int, *final(level) as int),
        *final(level) >= MAX_LEVEL || *final(kills) < points_for(*final(level) as int),
        *old(level) >= MAX_LEVEL ==> levels_gained == 0,
{
    let mut levels_gained: u32 = 0;
    let ghost k0 = *old(kills) as int;
    let ghost l0 = *old(level) as int;
    proof {
        lemma_level_up_shape(k0, l0);
    }
    loop
        invariant
            *level >= 1,
            *level as int == l0 + levels_gained,
            l0 >= 1,
            levels_gained <= 14,
            l0 < MAX_LEVEL ==> *level <= MAX_LEVEL,
            l0 >= MAX_LEVEL ==> levels_gained == 0,
            level_up(*kills as int, *level as int).0 == level_up(k0, l0).0,
            level_up(*kills as int, *level as int).1 == level_up(k0, l0).1,
            level_up(*kills as int, *level as int).2 + levels_gained == level_up(k0, l0).2,
        ensures
            level_up(*kills as int, *level as int) == (*kills as int, *level as int, 0int),
            *level as int == l0 + levels_gained,
            level_up(k0, l0) == (*kills as int, *level as int, levels_gained as int),
        decreases MAX_LEVEL + 1 - levels_gained,
    {
        if *level - 1 >= 14 {
            break;
        }
        let idx: usize = (*level - 1) as usize;
        let kills_needed = PROGRESSION_POINTS[idx];
        assert(kills_needed == points_for(*level as int));
        if *kills >= kills_needed {
            *kills = *kills - kills_needed;
            *level = *level + 1;
            levels_gained = levels_gained + 1;
        } else {
            break;
        }
    }
    levels_gained
}

} // verus!
