//! Bunker wave encounters: waves of targets that must be defeated in turn,
//! with a survival countdown after which the remaining enemies frenzy.
//!
//! The countdowns themselves are measured in seconds of frame time and are
//! kept by the caller; this module holds the discrete state of an encounter
//! and decides what happens when a countdown runs out.

use crate::entities::CpuVariant;
use crate::numfmt::{decimal_text, int_decimal};
use crate::rng::random_below;
use vstd::prelude::*;

verus! {

#[derive(Debug, Clone, Copy, PartialEq, Eq, Structural)]
pub enum WaveState {
    Inactive,
    /// Survival timer is active, enemies are spawning based on target count.
    Spawning,
    /// Timer ran out, remaining enemies get buffed.
    Frenzy,
    /// Player defeated all targets before timer ran out.
    Clearing,
}

/// Stat scaling applied to enemies spawned in a wave, in percent of the base stat.
#[derive(Debug, Clone, Copy, PartialEq, Eq, Structural)]
pub struct WaveStatModifiers {
    pub hp_percent: u32,
    pub damage_percent: u32,
    pub speed_percent: u32,
}

impl Default for WaveStatModifiers {
    fn default() -> (m: Self)
        ensures
            m == (WaveStatModifiers { hp_percent: 100, damage_percent: 100, speed_percent: 100 }),
    {
        WaveStatModifiers { hp_percent: 100, damage_percent: 100, speed_percent: 100 }
    }
}

/// The stat scaling of enemies spawned during wave `wave`.
pub open spec fn modifiers_for_wave(wave: int) -> WaveStatModifiers {
    if wave == 2 {
        WaveStatModifiers { hp_percent: 150, damage_percent: 100, speed_percent: 100 }
    } else if wave == 3 {
        WaveStatModifiers { hp_percent: 200, damage_percent: 125, speed_percent: 100 }
    } else if wave >= 4 {
        WaveStatModifiers { hp_percent: 250, damage_percent: 150, speed_percent: 120 }
    } else {
        WaveStatModifiers { hp_percent: 100, damage_percent: 100, speed_percent: 100 }
    }
}

/// What a defeat notification did to the encounter.
#[derive(Debug, Clone, Copy, PartialEq, Eq, Structural)]
pub enum DefeatOutcome {
    /// No encounter was running; nothing changed.
    Ignored,
    /// The defeat was counted; the wave goes on.
    Counted,
    /// The wave was cleared and the next one started (its countdowns restart).
    NextWave,
    /// The last wave was cleared and the encounter ended.
    EncounterCleared,
}

/// `WAVE w / n`, the start of the wave banner.
pub open spec fn wave_header_spec(wave: int, total_waves: int) -> Seq<char> {
    "WAVE "@ + int_decimal(wave) + " / "@ + int_decimal(total_waves)
}

/// The wave banner: the survival countdown while spawning, the frenzy warning
/// once it has run out, with the targets left; none otherwise.
pub open spec fn wave_banner(
    state: WaveState,
    wave: int,
    total_waves: int,
    targets_remaining: int,
    survive_seconds: Seq<char>,
) -> Option<Seq<char>> {
    match state {
        WaveState::Spawning => Some(
            wave_header_spec(wave, total_waves) + "   |   SURVIVE: "@ + survive_seconds
                + "s   |   TARGETS: "@ + int_decimal(targets_remaining),
        ),
        WaveState::Frenzy => Some(
            wave_header_spec(wave, total_waves) + "   |   FRENZY   |   TARGETS: "@ + int_decimal(
                targets_remaining,
            ),
        ),
        _ => None,
    }
}

fn wave_header(wave: u32, total_waves: u32) -> (s: String)
    ensures
        s@ == wave_header_spec(wave as int, total_waves as int),
{
    let mut s = "WAVE ".to_owned();
    s.append(decimal_text(wave as i64).as_str());
    s.append(" / ");
    s.append(decimal_text(total_waves as i64).as_str());
    s
}

/// Number of targets to defeat in wave `wave`.
pub open spec fn targets_for_wave(wave: int) -> int {
    if 1 <= wave <= 3 { 3 } else { 25 }
}

/// Targets of all waves `from..=to`.
pub open spec fn targets_between(from: int, to: int) -> int
    decreases to - from + 1,
{
    if to < from { 0 } else { targets_for_wave(from) + targets_between(from + 1, to) }
}

/// Defeats it takes to clear a freshly started encounter of `total_waves` waves
/// (an encounter always runs at least its first wave).
pub open spec fn encounter_defeats(total_waves: int) -> int {
    if total_waves <= 1 { targets_for_wave(1) } else { targets_between(1, total_waves) }
}

/// The spawn table (variant, weight) of bunker floor `floor`.
pub open spec fn spawn_table(floor: i32) -> Seq<(CpuVariant, u32)> {
    if floor == 1 {
        seq![(CpuVariant::NightReaver, 1u32)]
    } else if floor == 0 {
        seq![(CpuVariant::LightReaver, 1u32)]
    } else if floor == -1 {
        seq![(CpuVariant::LightReaver, 1u32), (CpuVariant::NightReaver, 1u32)]
    } else if floor == -2 {
        seq![(CpuVariant::LightReaver, 2u32), (CpuVariant::NightReaver, 2u32), (CpuVariant::VoidTempest, 1u32)]
    } else if floor == -3 {
        seq![(CpuVariant::RazorFiend, 1u32)]
    } else {
        seq![(CpuVariant::NightReaver, 1u32)]
    }
}

/// Sum of the weights of `table`.
pub open spec fn total_weight(table: Seq<(CpuVariant, u32)>) -> int
    decreases table.len(),
{
    if table.len() == 0 { 0 } else { table[0].1 + total_weight(table.drop_first()) }
}

/// Sum of the weights of the first `i` entries of `table`.
pub open spec fn weight_before(table: Seq<(CpuVariant, u32)>, i: int) -> int {
    total_weight(table.take(i))
}

/// The variant that a draw of `roll` selects from `table`: walking the table,
/// the first entry whose weight exceeds what is left of the roll; past the end,
/// the last entry; `NightReaver` for an empty table.
pub open spec fn variant_for_roll_spec(table: Seq<(CpuVariant, u32)>, roll: int) -> CpuVariant
    decreases table.len(),
{
    if table.len() == 0 {
        CpuVariant::NightReaver
    } else if roll < table[0].1 || table.len() == 1 {
        table[0].0
    } else {
        variant_for_roll_spec(table.drop_first(), roll - table[0].1)
    }
}

pub struct WaveManager {
    pub state: WaveState,
    pub current_wave: u32,
    pub total_waves: u32,
    total_targets_for_wave: u32,
    enemies_spawned_this_wave: u32,
    targets_defeated: u32,
    pub enrage_buff_applied: bool,
}

impl WaveManager {
    /// The encounter's state.
    pub closed spec fn state_of(self) -> WaveState {
        self.state
    }

    /// The current wave (0 when idle).
    pub closed spec fn wave(self) -> u32 {
        self.current_wave
    }

    /// The number of waves of the encounter.
    pub closed spec fn waves(self) -> u32 {
        self.total_waves
    }

    /// Targets of the current wave.
    pub closed spec fn targets(self) -> u32 {
        self.total_targets_for_wave
    }

    /// Enemies spawned so far in the current wave.
    pub closed spec fn spawned(self) -> u32 {
        self.enemies_spawned_this_wave
    }

    /// Targets defeated so far in the current wave.
    pub closed spec fn defeated(self) -> u32 {
        self.targets_defeated
    }

    /// Whether the frenzy buff has been applied to the wave's enemies.
    pub closed spec fn enraged(self) -> bool {
        self.enrage_buff_applied
    }

    /// Wave, waves, targets, spawned count and enrage flag are as in `other`.
    pub open spec fn same_counts(self, other: WaveManager) -> bool {
        &&& self.wave() == other.wave()
        &&& self.waves() == other.waves()
        &&& self.targets() == other.targets()
        &&& self.spawned() == other.spawned()
        &&& self.enraged() == other.enraged()
    }

    /// Targets still to defeat in the current wave, never below zero.
    pub closed spec fn targets_remaining(self) -> int {
        if self.targets_defeated <= self.total_targets_for_wave {
            self.total_targets_for_wave - self.targets_defeated
        } else {
            0
        }
    }

    /// The manager after a frame in which the survival time is or is not up.
    pub closed spec fn after_update(self, survival_time_up: bool) -> WaveManager {
        WaveManager {
            state: if survival_time_up && self.state == WaveState::Spawning {
                WaveState::Frenzy
            } else {
                self.state
            },
            ..self
        }
    }

    /// The manager after one more enemy of the wave has spawned.
    pub closed spec fn after_spawn(self) -> WaveManager {
        WaveManager { enemies_spawned_this_wave: (self.enemies_spawned_this_wave + 1) as u32, ..self }
    }

    /// The wave banner of the manager, given the rendered survival seconds.
    pub closed spec fn banner(self, survive_seconds: Seq<char>) -> Option<Seq<char>> {
        wave_banner(
            self.state,
            self.current_wave as int,
            self.total_waves as int,
            self.targets_remaining(),
            survive_seconds,
        )
    }
    pub closed spec fn active(self) -> bool {
        self.state != WaveState::Inactive
    }

    /// The manager as `new` and `reset` leave it: no encounter.
    pub closed spec fn is_fresh(self) -> bool {
        &&& self.state == WaveState::Inactive
        &&& self.current_wave == 0
        &&& self.total_waves == 0
        &&& self.total_targets_for_wave == 0
        &&& self.enemies_spawned_this_wave == 0
        &&& self.targets_defeated == 0
        &&& !self.enrage_buff_applied
    }

    /// Wave `wave` of `total` has just begun.
    pub closed spec fn wave_begun(self, wave: int, total: int) -> bool {
        &&& self.state == WaveState::Spawning
        &&& self.current_wave == wave
        &&& self.total_waves == total
        &&& self.total_targets_for_wave == targets_for_wave(wave)
        &&& self.enemies_spawned_this_wave == 0
        &&& self.targets_defeated == 0
        &&& !self.enrage_buff_applied
    }

    /// Well-formedness: an idle manager is in no wave; a running encounter is in a
    /// numbered wave whose target count fits the wave and is not yet met.
    pub closed spec fn wf(self) -> bool {
        &&& self.state != WaveState::Clearing
        &&& (self.state == WaveState::Inactive ==> {
            &&& self.current_wave == 0
            &&& self.total_targets_for_wave == 0
            &&& self.targets_defeated == 0
        })
        &&& (self.state != WaveState::Inactive ==> {
            &&& self.current_wave >= 1
            &&& self.total_targets_for_wave == targets_for_wave(self.current_wave as int)
            &&& self.targets_defeated < self.total_targets_for_wave
        })
    }

    /// Defeats still needed to end the running encounter (0 when idle).
    pub closed spec fn remaining_defeats(self) -> int {
        if self.state == WaveState::Inactive {
            0
        } else {
            (self.total_targets_for_wave - self.targets_defeated) + targets_between(
                self.current_wave + 1,
                self.total_waves as int,
            )
        }
    }

    /// The manager at the start of the wave after the current one.
    pub closed spec fn next_wave_spec(self) -> WaveManager {
        WaveManager {
            state: WaveState::Spawning,
            current_wave: (self.current_wave + 1) as u32,
            total_waves: self.total_waves,
            total_targets_for_wave: targets_for_wave(self.current_wave + 1) as u32,
            enemies_spawned_this_wave: 0,
            targets_defeated: 0,
            enrage_buff_applied: false,
        }
    }

    /// The fresh manager.
    pub closed spec fn fresh_spec() -> WaveManager {
        WaveManager {
            state: WaveState::Inactive,
            current_wave: 0,
            total_waves: 0,
            total_targets_for_wave: 0,
            enemies_spawned_this_wave: 0,
            targets_defeated: 0,
            enrage_buff_applied: false,
        }
    }

    /// What one defeat notification does.
    pub closed spec fn after_defeat(self) -> (WaveManager, DefeatOutcome) {
        if self.state == WaveState::Inactive {
            (self, DefeatOutcome::Ignored)
        } else if self.targets_defeated + 1 >= self.total_targets_for_wave {
            if self.current_wave < self.total_waves {
                (self.next_wave_spec(), DefeatOutcome::NextWave)
            } else {
                (Self::fresh_spec(), DefeatOutcome::EncounterCleared)
            }
        } else {
            (WaveManager { targets_defeated: (self.targets_defeated + 1) as u32, ..self }, DefeatOutcome::Counted)
        }
    }

    /// `k` defeat notifications in a row.
    pub closed spec fn after_defeats(self, k: nat) -> WaveManager
        decreases k,
    {
        if k == 0 { self } else { self.after_defeat().0.after_defeats((k - 1) as nat) }
    }

    pub fn new() -> (m: Self)
        ensures
            m == Self::fresh_spec(),
            m.is_fresh(),
            m.wf(),
    {
        WaveManager {
            state: WaveState::Inactive,
            current_wave: 0,
            total_waves: 0,
            total_targets_for_wave: 0,
            enemies_spawned_this_wave: 0,
            targets_defeated: 0,
            enrage_buff_applied: false,
        }
    }

    fn get_targets_for_wave(wave_num: u32) -> (t: u32)
        ensures
            t == targets_for_wave(wave_num as int),
    {
        match wave_num {
            1 => 3,
            2 => 3,
            3 => 3,
            _ => 25,
        }
    }

    /// Returns a list of (variant, weight) for enemy spawns for the given floor.
    /// Weights are used for random selection (higher = more likely).
    pub fn get_spawn_table_for_floor(floor: i32) -> (table: Vec<(CpuVariant, u32)>)
        ensures
            table@ == spawn_table(floor),
    {
        let mut table: Vec<(CpuVariant, u32)> = Vec::new();
        match floor {
            1 => {
                table.push((CpuVariant::NightReaver, 1));
            },
            0 => {
                table.push((CpuVariant::LightReaver, 1));
            },
            -1 => {
                table.push((CpuVariant::LightReaver, 1));
                table.push((CpuVariant::NightReaver, 1));
            },
            -2 => {
                table.push((CpuVariant::LightReaver, 2));
                table.push((CpuVariant::NightReaver, 2));
                table.push((CpuVariant::VoidTempest, 1));
            },
            -3 => {
                table.push((CpuVariant::RazorFiend, 1));
            },
            _ => {
                table.push((CpuVariant::NightReaver, 1));
            },
        }
        table
    }

    /// Helper to pick a variant from a weighted table.
    ///
    /// An empty table, or one whose weights are all zero, gives `NightReaver`;
    /// otherwise a number is drawn below the total weight and the entry that
    /// its interval falls in is returned.
    pub fn pick_random_variant(table: &Vec<(CpuVariant, u32)>) -> (v: CpuVariant)
        requires
            total_weight(table@) <= u32::MAX,
        ensures
            table@.len() == 0 || total_weight(table@) == 0 ==> v == CpuVariant::NightReaver,
            table@.len() > 0 && total_weight(table@) > 0 ==> exists|roll: int|
                0 <= roll < total_weight(table@) && v == variant_for_roll_spec(table@, roll),
            table@.len() > 0 && total_weight(table@) > 0 ==> exists|i: int|
                0 <= i < table@.len() && table@[i].0 == v && table@[i].1 > 0,
    {
        if table.len() == 0 {
            return CpuVariant::NightReaver;
        }
        let total = Self::table_total_weight(table);
        if total == 0 {
            return CpuVariant::NightReaver;
        }
        let choice = random_below(total);
        proof {
            lemma_roll_lands_on_weighted_entry(table@, choice as int);
        }
        Self::variant_for_roll(table, choice)
    }

    /// Sum of the weights of `table`.
    fn table_total_weight(table: &Vec<(CpuVariant, u32)>) -> (total: u32)
        requires
            total_weight(table@) <= u32::MAX,
        ensures
            total == total_weight(table@),
    {
        let mut total: u32 = 0;
        let mut i: usize = 0;
        while i < table.len()
            invariant
                0 <= i <= table@.len(),
                total == weight_before(table@, i as int),
                total_weight(table@) <= u32::MAX,
            decreases table@.len() - i,
        {
            proof {
                lemma_weight_before_step(table@, i as int);
                lemma_weight_before_le_total(table@, i as int + 1);
            }
            total = total + table[i].1;
            i = i + 1;
        }
        proof {
            assert(table@.take(table@.len() as int) =~= table@);
        }
        total
    }

    /// The variant that a draw of `roll` selects from `table`.
    pub fn variant_for_roll(table: &Vec<(CpuVariant, u32)>, roll: u32) -> (v: CpuVariant)
        ensures
            v == variant_for_roll_spec(table@, roll as int),
    {
        let n = table.len();
        if n == 0 {
            return CpuVariant::NightReaver;
        }
        let mut choice = roll;
        let mut i: usize = 0;
        proof {
            assert(table@.skip(0) =~= table@);
        }
        while i + 1 < n
            invariant
                n == table@.len(),
                n > 0,
                i < n,
                variant_for_roll_spec(table@, roll as int) == variant_for_roll_spec(
                    table@.skip(i as int),
                    choice as int,
                ),
            decreases n - i,
        {
            let (variant, weight) = table[i];
            proof {
                assert(table@.skip(i as int)[0] == table@[i as int]);
                assert(table@.skip(i as int).drop_first() =~= table@.skip(i as int + 1));
            }
            if choice < weight {
                return variant;
            }
            choice = choice - weight;
            i = i + 1;
        }
        table[n - 1].0
    }

    /// Starts the next wave: its targets, a fresh count, no enrage buff yet.
    fn start_next_wave(&mut self)
        requires
            old(self).wave() < u32::MAX,
        ensures
            *final(self) == old(self).next_wave_spec(),
    {
        self.current_wave = self.current_wave + 1;
        self.state = WaveState::Spawning;
        self.total_targets_for_wave = Self::get_targets_for_wave(self.current_wave);
        self.enemies_spawned_this_wave = 0;
        self.targets_defeated = 0;
        self.enrage_buff_applied = false;
    }

    /// Starts an encounter of `total_waves` waves unless one is already running.
    /// Returns whether it started (the caller then restarts the countdowns).
    pub fn start_encounter(&mut self, total_waves: u32) -> (started: bool)
        requires
            old(self).wf(),
        ensures
            final(self).wf(),
            started == !old(self).active(),
            !started ==> *final(self) == *old(self),
            started ==> final(self).wave_begun(1, total_waves as int),
            started ==> final(self).remaining_defeats() == encounter_defeats(total_waves as int),
    {
        if self.is_active() {
            return false;
        }
        self.total_waves = total_waves;
        self.start_next_wave();
        proof {
            lemma_encounter_defeats(total_waves as int);
        }
        true
    }

    /// Decides the frame's wave events once the caller has advanced its
    /// countdowns: `survival_time_up` when the survival countdown has reached
    /// zero, `spawn_timer_elapsed` when the spawn countdown has. A running wave
    /// turns to frenzy when its survival time is up. Returns true if an enemy
    /// should be spawned this frame (the caller then restarts the spawn countdown).
    pub fn update(&mut self, survival_time_up: bool, spawn_timer_elapsed: bool) -> (spawn: bool)
        ensures
            *final(self) == old(self).after_update(survival_time_up),
            spawn == (spawn_timer_elapsed && old(self).spawned() < old(self).targets()),
            old(self).wf() ==> final(self).wf(),
            final(self).state_of() == if survival_time_up && old(self).state_of()
                == WaveState::Spawning {
                WaveState::Frenzy
            } else {
                old(self).state_of()
            },
            final(self).same_counts(*old(self)),
            final(self).defeated() == old(self).defeated(),
    {
        if survival_time_up && self.state == WaveState::Spawning {
            self.state = WaveState::Frenzy;
        }
        if spawn_timer_elapsed && self.enemies_spawned_this_wave < self.total_targets_for_wave {
            return true;
        }
        false
    }

    pub fn notify_enemy_spawned(&mut self)
        requires
            old(self).spawned() < u32::MAX,
        ensures
            *final(self) == old(self).after_spawn(),
            old(self).wf() ==> final(self).wf(),
    {
        self.enemies_spawned_this_wave = self.enemies_spawned_this_wave + 1;
    }

    /// Counts a defeated target. When the wave's targets are all defeated the
    /// next wave starts, or, after the last wave, the encounter ends.
    pub fn notify_enemy_defeated(&mut self) -> (outcome: DefeatOutcome)
        requires
            old(self).wf(),
        ensures
            (*final(self), outcome) == old(self).after_defeat(),
            final(self).wf(),
            (outcome == DefeatOutcome::Counted) <==> (old(self).state_of() != WaveState::Inactive
                && old(self).defeated() + 1 < old(self).targets()),
            outcome == DefeatOutcome::Counted ==> final(self).state_of() == old(self).state_of()
                && final(self).same_counts(*old(self)) && final(self).defeated() == old(
                self,
            ).defeated() + 1,
    {
        if !self.is_active() {
            return DefeatOutcome::Ignored;
        }
        self.targets_defeated = self.targets_defeated + 1;
        if self.targets_defeated >= self.total_targets_for_wave {
            if self.current_wave < self.total_waves {
                self.start_next_wave();
                DefeatOutcome::NextWave
            } else {
                self.reset();
                DefeatOutcome::EncounterCleared
            }
        } else {
            DefeatOutcome::Counted
        }
    }

    pub fn get_stat_modifiers_for_current_wave(&self) -> (m: WaveStatModifiers)
        ensures
            m == modifiers_for_wave(self.wave() as int),
    {
        match self.current_wave {
            1 => WaveStatModifiers::default(),
            2 => WaveStatModifiers { hp_percent: 150, ..WaveStatModifiers::default() },
            3 => WaveStatModifiers {
                hp_percent: 200,
                damage_percent: 125,
                ..WaveStatModifiers::default()
            },
            0 => WaveStatModifiers::default(),
            _ => WaveStatModifiers { hp_percent: 250, damage_percent: 150, speed_percent: 120 },
        }
    }

    pub fn reset(&mut self)
        ensures
            *final(self) == Self::fresh_spec(),
            final(self).is_fresh(),
            final(self).wf(),
    {
        *self = Self::new();
    }

    pub fn is_active(&self) -> (b: bool)
        ensures
            b == self.active(),
    {
        self.state != WaveState::Inactive
    }

    /// Targets of the current wave.
    pub fn targets_this_wave(&self) -> (n: u32)
        ensures
            n == self.targets(),
    {
        self.total_targets_for_wave
    }

    /// Enemies spawned so far in the current wave.
    pub fn spawned_this_wave(&self) -> (n: u32)
        ensures
            n == self.spawned(),
    {
        self.enemies_spawned_this_wave
    }

    /// The wave banner while an encounter runs, e.g.
    /// `WAVE 1 / 3   |   SURVIVE: 27s   |   TARGETS: 2`; `survive_seconds` is
    /// the survival time left, already rendered in whole seconds.
    pub fn get_ui_text(&self, survive_seconds: &str) -> (t: Option<String>)
        ensures
            t is Some == self.banner(survive_seconds@) is Some,
            t matches Some(s) ==> s@ == self.banner(survive_seconds@).unwrap(),
    {
        if !self.is_active() {
            return None;
        }
        let targets_remaining = self.total_targets_for_wave.saturating_sub(self.targets_defeated);
        match self.state {
            WaveState::Spawning => {
                let mut s = wave_header(self.current_wave, self.total_waves);
                s.append("   |   SURVIVE: ");
                s.append(survive_seconds);
                s.append("s   |   TARGETS: ");
                s.append(decimal_text(targets_remaining as i64).as_str());
                Some(s)
            },
            WaveState::Frenzy => {
                let mut s = wave_header(self.current_wave, self.total_waves);
                s.append("   |   FRENZY   |   TARGETS: ");
                s.append(decimal_text(targets_remaining as i64).as_str());
                Some(s)
            },
            WaveState::Clearing => None,
            WaveState::Inactive => None,
        }
    }
}

/// Weights add up over a concatenation.
pub proof fn lemma_total_weight_concat(a: Seq<(CpuVariant, u32)>, b: Seq<(CpuVariant, u32)>)
    ensures
        total_weight(a + b) == total_weight(a) + total_weight(b),
    decreases a.len(),
{
    if a.len() == 0 {
        assert(a + b =~= b);
    } else {
        assert((a + b).drop_first() =~= a.drop_first() + b);
        lemma_total_weight_concat(a.drop_first(), b);
    }
}

proof fn lemma_total_weight_nonneg(t: Seq<(CpuVariant, u32)>)
    ensures
        total_weight(t) >= 0,
    decreases t.len(),
{
    if t.len() > 0 {
        lemma_total_weight_nonneg(t.drop_first());
    }
}

proof fn lemma_total_weight_single(x: (CpuVariant, u32))
    ensures
        total_weight(seq![x]) == x.1,
{
    assert(seq![x].drop_first() =~= Seq::<(CpuVariant, u32)>::empty());
    assert(total_weight(Seq::<(CpuVariant, u32)>::empty()) == 0);
}

proof fn lemma_weight_before_step(t: Seq<(CpuVariant, u32)>, i: int)
    requires
        0 <= i < t.len(),
    ensures
        weight_before(t, i + 1) == weight_before(t, i) + t[i].1,
{
    assert(t.take(i + 1) =~= t.take(i) + seq![t[i]]);
    lemma_total_weight_concat(t.take(i), seq![t[i]]);
    lemma_total_weight_single(t[i]);
}

proof fn lemma_weight_before_le_total(t: Seq<(CpuVariant, u32)>, i: int)
    requires
        0 <= i <= t.len(),
    ensures
        weight_before(t, i) <= total_weight(t),
{
    assert(t =~= t.take(i) + t.skip(i));
    lemma_total_weight_concat(t.take(i), t.skip(i));
    lemma_total_weight_nonneg(t.skip(i));
}

/// Every draw below the total weight selects an entry of the table that has
/// a positive weight.
pub proof fn lemma_roll_lands_on_weighted_entry(t: Seq<(CpuVariant, u32)>, roll: int)
    requires
        0 <= roll < total_weight(t),
    ensures
        exists|i: int| 0 <= i < t.len() && t[i].0 == variant_for_roll_spec(t, roll) && t[i].1 > 0,
    decreases t.len(),
{
    let v = variant_for_roll_spec(t, roll);
    if roll < t[0].1 {
        assert(t[0].0 == v && t[0].1 > 0);
    } else if t.len() == 1 {
        assert(t.drop_first() =~= Seq::<(CpuVariant, u32)>::empty());
        assert(total_weight(t.drop_first()) == 0);
        assert(false);
    } else {
        lemma_roll_lands_on_weighted_entry(t.drop_first(), roll - t[0].1);
        let j = choose|j: int|
            0 <= j < t.drop_first().len() && t.drop_first()[j].0 == variant_for_roll_spec(
                t.drop_first(),
                roll - t[0].1,
            ) && t.drop_first()[j].1 > 0;
        assert(t[j + 1] == t.drop_first()[j]);
    }
}

/// Weighted selection: the draws that select entry `i` are exactly those in
/// its own interval `[weight_before(i), weight_before(i) + weight(i))`, so an
/// entry is chosen in proportion to its weight.
pub proof fn lemma_roll_interval_selects_entry(t: Seq<(CpuVariant, u32)>, i: int, roll: int)
    requires
        0 <= i < t.len(),
        weight_before(t, i) <= roll < weight_before(t, i) + t[i].1,
    ensures
        variant_for_roll_spec(t, roll) == t[i].0,
    decreases i,
{
    if i == 0 {
        assert(t.take(0) =~= Seq::<(CpuVariant, u32)>::empty());
    } else {
        let d = t.drop_first();
        assert(t.take(i) =~= seq![t[0]] + d.take(i - 1));
        lemma_total_weight_concat(seq![t[0]], d.take(i - 1));
        lemma_total_weight_single(t[0]);
        lemma_total_weight_nonneg(d.take(i - 1));
        assert(d[i - 1] == t[i]);
        lemma_roll_interval_selects_entry(d, i - 1, roll - t[0].1);
    }
}

proof fn lemma_targets_between_positive(from: int, to: int)
    ensures
        targets_between(from, to) >= 0,
        from <= to ==> targets_between(from, to) >= 3,
    decreases to - from + 1,
{
    if from <= to {
        lemma_targets_between_positive(from + 1, to);
    }
}

/// A started encounter needs `encounter_defeats(total_waves)` defeats.
proof fn lemma_encounter_defeats(total_waves: int)
    ensures
        targets_for_wave(1) + targets_between(2, total_waves) == encounter_defeats(total_waves),
{
    if total_waves <= 1 {
        assert(targets_between(2, total_waves) == 0);
    }
}

/// Closed form of the defeats a full encounter takes: three for each of the
/// first three waves, twenty-five for each later one.
pub proof fn lemma_encounter_defeats_closed_form(total_waves: int)
    requires
        total_waves >= 1,
    ensures
        encounter_defeats(total_waves) == if total_waves <= 3 {
            3 * total_waves
        } else {
            9 + 25 * (total_waves - 3)
        },
{
    lemma_targets_from_first_wave(total_waves);
    if total_waves == 1 {
        assert(targets_between(2, 1) == 0);
    }
}

proof fn lemma_targets_from_first_wave(n: int)
    requires
        n >= 0,
    ensures
        targets_between(1, n) == if n <= 3 { 3 * n } else { 9 + 25 * (n - 3) },
    decreases n,
{
    if n > 0 {
        lemma_targets_from_first_wave(n - 1);
        lemma_targets_between_append(1, n);
    }
}

proof fn lemma_targets_between_append(from: int, to: int)
    requires
        from <= to,
    ensures
        targets_between(from, to) == targets_between(from, to - 1) + targets_for_wave(to),
    decreases to - from,
{
    if from < to {
        lemma_targets_between_append(from + 1, to);
    } else {
        assert(targets_between(from + 1, to) == 0);
        assert(targets_between(from, to - 1) == 0);
    }
}

/// Each defeat during an encounter brings it exactly one defeat closer to its
/// end, keeps the manager well formed, and ends the encounter (leaving the
/// manager fresh) exactly when it was the last defeat needed.
pub proof fn lemma_defeat_progress(m: WaveManager)
    requires
        m.wf(),
        m.active(),
    ensures
        m.remaining_defeats() >= 1,
        m.after_defeat().0.wf(),
        m.after_defeat().0.remaining_defeats() == m.remaining_defeats() - 1,
        (m.after_defeat().1 == DefeatOutcome::EncounterCleared) <==> m.remaining_defeats() == 1,
        (m.remaining_defeats() == 1) <==> !m.after_defeat().0.active(),
        m.after_defeat().1 == DefeatOutcome::EncounterCleared ==> m.after_defeat().0.is_fresh(),
        m.after_defeat().1 == DefeatOutcome::NextWave ==> m.after_defeat().0.wave_begun(
            m.wave() + 1,
            m.waves() as int,
        ),
{
    lemma_targets_between_positive(m.current_wave + 1, m.total_waves as int);
    lemma_targets_between_positive(m.current_wave + 2, m.total_waves as int);
    if m.current_wave < m.total_waves {
        assert(targets_between(m.current_wave + 1, m.total_waves as int) == targets_for_wave(
            m.current_wave + 1,
        ) + targets_between(m.current_wave + 2, m.total_waves as int));
    }
}

/// An encounter ends after exactly as many defeats as it has targets left in
/// all its waves: it is still running after fewer, and fresh after that many.
pub proof fn lemma_encounter_ends_after_remaining_defeats(m: WaveManager, k: nat)
    requires
        m.wf(),
        m.active(),
        k <= m.remaining_defeats(),
    ensures
        m.after_defeats(k).wf(),
        m.after_defeats(k).remaining_defeats() == m.remaining_defeats() - k,
        m.after_defeats(k).active() <==> k < m.remaining_defeats(),
        k == m.remaining_defeats() ==> m.after_defeats(k).is_fresh(),
    decreases k,
{
    lemma_defeat_progress(m);
    if k > 0 {
        let m1 = m.after_defeat().0;
        if m.remaining_defeats() == 1 {
            assert(k == 1);
            assert(m.after_defeats(k) == m1.after_defeats(0));
        } else {
            lemma_encounter_ends_after_remaining_defeats(m1, (k - 1) as nat);
        }
    }
}

/// `reset` and `new` leave the same manager: the fresh one is the only
/// manager with no encounter, no wave and nothing counted.
pub proof fn lemma_fresh_is_unique(m: WaveManager)
    requires
        m.is_fresh(),
    ensures
        m == WaveManager::fresh_spec(),
        WaveManager::fresh_spec().is_fresh(),
        WaveManager::fresh_spec().wf(),
{
}

/// Running out of survival time turns a spawning wave into a frenzy, whatever
/// has spawned so far; nothing else about the wave changes, and a wave that is
/// not spawning keeps its state.
pub proof fn lemma_update_turns_spawning_to_frenzy(m: WaveManager, survival_time_up: bool)
    ensures
        m.state_of() == WaveState::Spawning && survival_time_up ==> m.after_update(
            survival_time_up,
        ).state_of() == WaveState::Frenzy,
        !(m.state_of() == WaveState::Spawning && survival_time_up) ==> m.after_update(
            survival_time_up,
        ).state_of() == m.state_of(),
        m.after_update(survival_time_up).same_counts(m),
        m.after_update(survival_time_up).defeated() == m.defeated(),
{
}

/// A defeat that does not clear the wave only adds one to the defeated count:
/// the state (spawning or frenzy), the wave, its targets, the spawned count and
/// the enrage flag all stay. It is counted exactly when an encounter is running
/// and targets are left after it.
pub proof fn lemma_counted_defeat_changes_only_the_count(m: WaveManager)
    ensures
        (m.after_defeat().1 == DefeatOutcome::Counted) <==> (m.state_of() != WaveState::Inactive
            && m.defeated() + 1 < m.targets()),
        m.after_defeat().1 == DefeatOutcome::Counted ==> {
            let n = m.after_defeat().0;
            &&& n.state_of() == m.state_of()
            &&& n.same_counts(m)
            &&& n.defeated() == m.defeated() + 1
        },
        m.state_of() == WaveState::Inactive ==> m.after_defeat() == (m, DefeatOutcome::Ignored),
{
}

/// Later waves never spawn weaker enemies.
pub proof fn lemma_modifiers_never_weaken(w1: int, w2: int)
    requires
        1 <= w1 <= w2,
    ensures
        modifiers_for_wave(w1).hp_percent <= modifiers_for_wave(w2).hp_percent,
        modifiers_for_wave(w1).damage_percent <= modifiers_for_wave(w2).damage_percent,
        modifiers_for_wave(w1).speed_percent <= modifiers_for_wave(w2).speed_percent,
{
}

} // verus!
