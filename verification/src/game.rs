//! Rules of the main game loop: kill score and levelling, the encounter
//! warning, the ambient playlist, the CPU texture set, the assets folder
//! choice and the combo-finisher effects of a melee strike.

use crate::entities::{CpuVariant, FighterType};
use crate::mechanics::lvl_up::{check_for_level_up, level_up};
use crate::numfmt::{decimal_text, int_decimal, nat_decimal};
use vstd::prelude::*;

verus! {

#[derive(Debug, Clone, Copy, PartialEq, Eq, Structural)]
pub enum StatChoice {
    Def,
    Atk,
    Spd,
}

/// Where the level-up screen stands.
#[derive(Debug, Clone, Copy, PartialEq, Eq, Structural)]
pub enum LvlUpState {
    Closed,
    PendingTab { fighter_type: FighterType },
    SelectingStat,
    ConfirmingStat { stat_to_increase: StatChoice, fighter_type: FighterType },
}

/// A fighter kind's progression: kill score toward the next level, level,
/// and stat points still to spend.
#[derive(Debug, Clone, Copy, PartialEq, Eq, Structural)]
pub struct FighterRecord {
    pub kills: u32,
    pub level: u32,
    pub stat_points: u32,
}

impl FighterRecord {
    /// A fighter kind that has not scored yet: no kills, level 1, no points.
    pub fn new() -> (r: Self)
        ensures
            r == (FighterRecord { kills: 0, level: 1, stat_points: 0 }),
    {
        FighterRecord { kills: 0, level: 1, stat_points: 0 }
    }
}

/// One enemy as the encounter warning sees it.
#[derive(Debug, Clone, Copy, PartialEq, Eq, Structural)]
pub struct CpuStatus {
    pub variant: CpuVariant,
    pub dead: bool,
}

/// The name a fighter kind is shown under.
pub open spec fn fighter_name_spec(t: FighterType) -> Seq<char> {
    match t {
        FighterType::Racer => "RACER"@,
        FighterType::Soldier => "SOLDIER"@,
        FighterType::Raptor => "RAPTOR"@,
    }
}

/// The chat prompt shown after a level-up.
pub open spec fn level_up_prompt_spec(t: FighterType, stat_points: int) -> Seq<char> {
    "!! [TAB] TO LVL UP ["@ + fighter_name_spec(t) + "] +["@ + int_decimal(stat_points) + "] !!"@
}

pub fn fighter_name(t: FighterType) -> (name: &'static str)
    ensures
        name@ == fighter_name_spec(t),
{
    match t {
        FighterType::Racer => "RACER",
        FighterType::Soldier => "SOLDIER",
        FighterType::Raptor => "RAPTOR",
    }
}

/// Adds `points` to the kill score of the fighter kind whose record is given,
/// climbs levels as far as the score allows, and grants a stat point per level
/// gained; a level-up sends the level-up screen to its "press TAB" step.
/// Returns the number of levels gained (the caller then shows the prompt).
pub fn award_kill_score(
    record: &mut FighterRecord,
    fighter_type: FighterType,
    points: u32,
    lvl_up_state: &mut LvlUpState,
) -> (levels_gained: u32)
    requires
        old(record).level >= 1,
        old(record).kills + points <= u32::MAX,
        old(record).stat_points + level_up(old(record).kills + points, old(record).level as int).2
            <= u32::MAX,
    ensures
        (final(record).kills as int, final(record).level as int, levels_gained as int)
            == level_up(old(record).kills + points, old(record).level as int),
        final(record).stat_points == old(record).stat_points + levels_gained,
        levels_gained > 0 ==> *final(lvl_up_state) == (LvlUpState::PendingTab { fighter_type }),
        levels_gained == 0 ==> *final(lvl_up_state) == *old(lvl_up_state),
{
    record.kills = record.kills + points;
    let mut kills = record.kills;
    let mut level = record.level;
    let levels_gained = check_for_level_up(&mut kills, &mut level);
    record.kills = kills;
    record.level = level;
    if levels_gained > 0 {
        record.stat_points = record.stat_points + levels_gained;
        *lvl_up_state = LvlUpState::PendingTab { fighter_type };
    }
    levels_gained
}

/// The chat prompt inviting the player to spend `stat_points` on the fighter.
pub fn level_up_prompt(fighter_type: FighterType, stat_points: u32) -> (s: String)
    ensures
        s@ == level_up_prompt_spec(fighter_type, stat_points as int),
{
    let mut s = "!! [TAB] TO LVL UP [".to_owned();
    s.append(fighter_name(fighter_type));
    s.append("] +[");
    let n = decimal_text(stat_points as i64);
    s.append(n.as_str());
    s.append("] !!");
    s
}

/// Whether to warn of a strong encounter: the field is fogged (and fog of war
/// is on) and a Blood Idol is alive among the enemies.
pub fn check_and_display_demonic_presence(fog_active: bool, cpu_entities: &[CpuStatus]) -> (warn: bool)
    ensures
        warn == (fog_active && exists|i: int|
            0 <= i < cpu_entities@.len() && cpu_entities@[i].variant == CpuVariant::BloodIdol
                && !cpu_entities@[i].dead),
{
    if !fog_active {
        return false;
    }
    let mut i: usize = 0;
    while i < cpu_entities.len()
        invariant
            fog_active,
            0 <= i <= cpu_entities@.len(),
            forall|j: int|
                0 <= j < i ==> !(cpu_entities@[j].variant == CpuVariant::BloodIdol
                    && !cpu_entities@[j].dead),
        decreases cpu_entities@.len() - i,
    {
        if cpu_entities[i].variant == CpuVariant::BloodIdol && !cpu_entities[i].dead {
            assert(cpu_entities@[i as int].variant == CpuVariant::BloodIdol
                && !cpu_entities@[i as int].dead);
            return true;
        }
        i = i + 1;
    }
    false
}

/// Kill score awarded for completing `tasks_completed` tasks at once: ten each.
pub fn task_reward_points(tasks_completed: u32) -> (points: u32)
    requires
        10 * tasks_completed <= u32::MAX,
    ensures
        points == 10 * tasks_completed,
{
    10 * tasks_completed
}

/// Number of tracks in the ambient playlist.
pub const AMBIENT_PLAYLIST_LEN: usize = 15;

/// Name of the playlist track at `index`: `sdtrk1` to `sdtrk15`.
pub open spec fn ambient_track_name_spec(index: int) -> Seq<char> {
    "sdtrk"@ + nat_decimal((index + 1) as nat)
}

/// The track to start now: the one at `index` when the music has stopped
/// (no track playing, or the last one finished), else none.
pub fn ambient_track_to_start(music_idle: bool, index: usize) -> (track: Option<String>)
    requires
        music_idle ==> index < AMBIENT_PLAYLIST_LEN,
    ensures
        !music_idle ==> track is None,
        music_idle ==> (track matches Some(t) && t@ == ambient_track_name_spec(index as int)),
{
    if !music_idle {
        return None;
    }
    let mut name = "sdtrk".to_owned();
    let n = decimal_text(index as i64 + 1);
    name.append(n.as_str());
    Some(name)
}

/// The playlist position after a track has started: the next one, wrapping
/// around after the last.
pub fn next_playlist_index(index: usize) -> (next: usize)
    requires
        index < AMBIENT_PLAYLIST_LEN,
    ensures
        next == (index + 1) % (AMBIENT_PLAYLIST_LEN as int),
        next < AMBIENT_PLAYLIST_LEN,
{
    (index + 1) % AMBIENT_PLAYLIST_LEN
}

/// Which texture fills a slot of a CPU's texture set.
#[derive(Debug, Clone, Copy, PartialEq, Eq, Structural)]
pub enum TextureSource {
    /// The variant's base texture.
    Base,
    /// Its strike frame `n` (1 to 3).
    Strike(u32),
}

/// The four textures of a CPU variant: the base texture, then each strike
/// frame that exists, the base texture standing in for a missing one.
pub open spec fn cpu_texture_plan_spec(strike_found: [bool; 3]) -> Seq<TextureSource> {
    seq![
        TextureSource::Base,
        if strike_found[0] { TextureSource::Strike(1) } else { TextureSource::Base },
        if strike_found[1] { TextureSource::Strike(2) } else { TextureSource::Base },
        if strike_found[2] { TextureSource::Strike(3) } else { TextureSource::Base },
    ]
}

pub fn cpu_texture_plan(strike_found: [bool; 3]) -> (plan: Vec<TextureSource>)
    ensures
        plan@ == cpu_texture_plan_spec(strike_found),
        plan@.len() == 4,
{
    let mut plan: Vec<TextureSource> = Vec::new();
    plan.push(TextureSource::Base);
    let mut i: usize = 0;
    while i < 3
        invariant
            0 <= i <= 3,
            plan@.len() == i + 1,
            plan@ == cpu_texture_plan_spec(strike_found).take(i + 1),
        decreases 3 - i,
    {
        if strike_found[i] {
            plan.push(TextureSource::Strike(i as u32 + 1));
        } else {
            plan.push(TextureSource::Base);
        }
        proof {
            assert(plan@ =~= cpu_texture_plan_spec(strike_found).take(i + 2));
        }
        i = i + 1;
    }
    proof {
        assert(cpu_texture_plan_spec(strike_found).take(4) =~= cpu_texture_plan_spec(strike_found));
    }
    plan
}

/// Path of a CPU texture under the assets folder, e.g.
/// `entity/raptor/raptor.png` or `entity/raptor/raptorStrike2.png`.
pub open spec fn cpu_texture_path_spec(folder: Seq<char>, source: TextureSource) -> Seq<char> {
    match source {
        TextureSource::Base => "entity/"@ + folder + "/"@ + folder + ".png"@,
        TextureSource::Strike(n) => "entity/"@ + folder + "/"@ + folder + "Strike"@ + nat_decimal(
            n as nat,
        ) + ".png"@,
    }
}

pub fn cpu_texture_path(folder: &str, source: TextureSource) -> (path: String)
    ensures
        path@ == cpu_texture_path_spec(folder@, source),
{
    let mut path = "entity/".to_owned();
    path.append(folder);
    path.append("/");
    path.append(folder);
    match source {
        TextureSource::Base => {},
        TextureSource::Strike(n) => {
            path.append("Strike");
            let digits = decimal_text(n as i64);
            path.append(digits.as_str());
        },
    }
    path.append(".png");
    path
}

/// The first candidate assets folder that exists, by its position among the
/// candidates; `None` when none does (the default folder is then used).
pub fn first_existing_assets_dir(exists: &Vec<bool>) -> (choice: Option<usize>)
    ensures
        choice matches Some(i) ==> i < exists@.len() && exists@[i as int] && forall|j: int|
            0 <= j < i ==> !exists@[j],
        choice is None ==> forall|j: int| 0 <= j < exists@.len() ==> !exists@[j],
{
    let mut i: usize = 0;
    while i < exists.len()
        invariant
            0 <= i <= exists@.len(),
            forall|j: int| 0 <= j < i ==> !exists@[j],
        decreases exists@.len() - i,
    {
        if exists[i] {
            return Some(i);
        }
        i = i + 1;
    }
    None
}

/// How long a combo finisher stuns the enemy it hits.
#[derive(Debug, Clone, Copy, PartialEq, Eq, Structural)]
pub enum StunLevel {
    /// No stun.
    NoStun,
    /// The third-hit finisher: a short stun.
    Short,
    /// The fifth-hit finisher: a long stun.
    Long,
}

/// The stun a point hit of a combo finisher applies.
pub fn finisher_stun(apply_stun: bool, finisher_hit_count: u32) -> (stun: StunLevel)
    ensures
        stun == (if apply_stun && finisher_hit_count == 3 {
            StunLevel::Short
        } else if apply_stun && finisher_hit_count == 5 {
            StunLevel::Long
        } else {
            StunLevel::NoStun
        }),
{
    if apply_stun {
        if finisher_hit_count == 3 {
            return StunLevel::Short;
        } else if finisher_hit_count == 5 {
            return StunLevel::Long;
        }
    }
    StunLevel::NoStun
}

/// Whether a Racer's fifth combo strike grants ATOMIC-STATE at the end of the
/// strike: one of strikes 1 to 4 connected and the state is not already on.
pub fn grants_atomic_state(
    finisher_hit_count: u32,
    fighter_type: FighterType,
    combo_hit_connected: bool,
    atomic_state_active: bool,
) -> (grant: bool)
    ensures
        grant == (finisher_hit_count == 5 && fighter_type == FighterType::Racer
            && combo_hit_connected && !atomic_state_active),
{
    finisher_hit_count == 5 && fighter_type == FighterType::Racer && combo_hit_connected
        && !atomic_state_active
}

/// A key as the level-up screen reads it.
#[derive(Debug, Clone, Copy, PartialEq, Eq, Structural)]
pub enum LvlUpKey {
    Tab,
    Z,
    X,
    C,
    Y,
    N,
    /// Any other key.
    Other,
}

/// Stat points still to spend, per fighter kind.
#[derive(Debug, Clone, Copy, PartialEq, Eq, Structural)]
pub struct StatPoints {
    pub racer: u32,
    pub soldier: u32,
    pub raptor: u32,
}

impl StatPoints {
    pub open spec fn of(self, t: FighterType) -> u32 {
        match t {
            FighterType::Racer => self.racer,
            FighterType::Soldier => self.soldier,
            FighterType::Raptor => self.raptor,
        }
    }

    /// One point fewer for `t`.
    pub open spec fn spend_one(self, t: FighterType) -> StatPoints {
        match t {
            FighterType::Racer => StatPoints { racer: (self.racer - 1) as u32, ..self },
            FighterType::Soldier => StatPoints { soldier: (self.soldier - 1) as u32, ..self },
            FighterType::Raptor => StatPoints { raptor: (self.raptor - 1) as u32, ..self },
        }
    }

    pub fn get(&self, t: FighterType) -> (n: u32)
        ensures
            n == self.of(t),
    {
        match t {
            FighterType::Racer => self.racer,
            FighterType::Soldier => self.soldier,
            FighterType::Raptor => self.raptor,
        }
    }
}

/// What the game does after a key reached the level-up screen.
#[derive(Debug, Clone, Copy, PartialEq, Eq, Structural)]
pub enum LvlUpAction {
    /// The screen did not use the key; other key handlers get it.
    NotHandled,
    /// The screen used the key and shows nothing new.
    Handled,
    /// Show the stat menu of the fighter kind (`stat_menu_prompt`).
    ShowStatMenu { fighter_type: FighterType },
    /// Ask to confirm the stat (`confirm_prompt`).
    ShowConfirm { stat: StatChoice, fighter_type: FighterType },
    /// A point was spent on the stat: raise it; then show the stat menu again
    /// if points are left, or announce the increase (`STAT_INCREASED`).
    StatIncreased { stat: StatChoice, fighter_type: FighterType, points_left: bool },
}

/// The level-up screen's answer to `key` while `active` is the fighter on
/// screen: (next state, action, stat points after the key).
pub open spec fn lvl_up_key_spec(state: LvlUpState, key: LvlUpKey, active: FighterType, points: StatPoints) -> (
    LvlUpState,
    LvlUpAction,
    StatPoints,
) {
    match state {
        LvlUpState::PendingTab { fighter_type } => {
            if key == LvlUpKey::Tab && fighter_type == active {
                if points.of(active) > 0 {
                    (LvlUpState::SelectingStat, LvlUpAction::ShowStatMenu { fighter_type: active }, points)
                } else {
                    (state, LvlUpAction::Handled, points)
                }
            } else {
                (state, LvlUpAction::NotHandled, points)
            }
        },
        LvlUpState::SelectingStat => {
            match stat_for_key(key) {
                Some(stat) => (
                    LvlUpState::ConfirmingStat { stat_to_increase: stat, fighter_type: active },
                    LvlUpAction::ShowConfirm { stat, fighter_type: active },
                    points,
                ),
                None => (state, LvlUpAction::NotHandled, points),
            }
        },
        LvlUpState::ConfirmingStat { stat_to_increase, fighter_type } => {
            if key == LvlUpKey::Y {
                if points.of(fighter_type) > 0 {
                    let left = points.spend_one(fighter_type);
                    (
                        if left.of(fighter_type) > 0 {
                            LvlUpState::SelectingStat
                        } else {
                            LvlUpState::Closed
                        },
                        LvlUpAction::StatIncreased {
                            stat: stat_to_increase,
                            fighter_type,
                            points_left: left.of(fighter_type) > 0,
                        },
                        left,
                    )
                } else {
                    (state, LvlUpAction::Handled, points)
                }
            } else if key == LvlUpKey::N {
                (LvlUpState::SelectingStat, LvlUpAction::ShowStatMenu { fighter_type: active }, points)
            } else {
                (state, LvlUpAction::NotHandled, points)
            }
        },
        LvlUpState::Closed => (state, LvlUpAction::NotHandled, points),
    }
}

/// The stat a key picks on the stat menu: Z defense, X attack, C speed.
pub open spec fn stat_for_key(key: LvlUpKey) -> Option<StatChoice> {
    match key {
        LvlUpKey::Z => Some(StatChoice::Def),
        LvlUpKey::X => Some(StatChoice::Atk),
        LvlUpKey::C => Some(StatChoice::Spd),
        _ => None,
    }
}

/// Handles a key press on the level-up screen: opening the stat menu with
/// TAB, picking a stat with Z/X/C, confirming with Y (spending a point of the
/// fighter being levelled) or going back with N.
pub fn lvl_up_key(
    state: &mut LvlUpState,
    key: LvlUpKey,
    active: FighterType,
    points: &mut StatPoints,
) -> (action: LvlUpAction)
    ensures
        (*final(state), action, *final(points)) == lvl_up_key_spec(
            *old(state),
            key,
            active,
            *old(points),
        ),
{
    match *state {
        LvlUpState::PendingTab { fighter_type } => {
            if key == LvlUpKey::Tab && fighter_type == active {
                if points.get(active) > 0 {
                    *state = LvlUpState::SelectingStat;
                    LvlUpAction::ShowStatMenu { fighter_type: active }
                } else {
                    LvlUpAction::Handled
                }
            } else {
                LvlUpAction::NotHandled
            }
        },
        LvlUpState::SelectingStat => {
            let choice = match key {
                LvlUpKey::Z => Some(StatChoice::Def),
                LvlUpKey::X => Some(StatChoice::Atk),
                LvlUpKey::C => Some(StatChoice::Spd),
                _ => None,
            };
            match choice {
                Some(stat) => {
                    *state = LvlUpState::ConfirmingStat { stat_to_increase: stat, fighter_type: active };
                    LvlUpAction::ShowConfirm { stat, fighter_type: active }
                },
                None => LvlUpAction::NotHandled,
            }
        },
        LvlUpState::ConfirmingStat { stat_to_increase, fighter_type } => {
            match key {
                LvlUpKey::Y => {
                    if points.get(fighter_type) > 0 {
                        match fighter_type {
                            FighterType::Racer => points.racer = points.racer - 1,
                            FighterType::Soldier => points.soldier = points.soldier - 1,
                            FighterType::Raptor => points.raptor = points.raptor - 1,
                        }
                        let points_left = points.get(fighter_type) > 0;
                        if points_left {
                            *state = LvlUpState::SelectingStat;
                        } else {
                            *state = LvlUpState::Closed;
                        }
                        LvlUpAction::StatIncreased { stat: stat_to_increase, fighter_type, points_left }
                    } else {
                        LvlUpAction::Handled
                    }
                },
                LvlUpKey::N => {
                    *state = LvlUpState::SelectingStat;
                    LvlUpAction::ShowStatMenu { fighter_type: active }
                },
                _ => LvlUpAction::NotHandled,
            }
        },
        LvlUpState::Closed => LvlUpAction::NotHandled,
    }
}

/// Short name of a stat.
pub open spec fn stat_name_spec(stat: StatChoice) -> Seq<char> {
    match stat {
        StatChoice::Def => "DEF"@,
        StatChoice::Atk => "ATK"@,
        StatChoice::Spd => "SPD"@,
    }
}

pub fn stat_name(stat: StatChoice) -> (name: &'static str)
    ensures
        name@ == stat_name_spec(stat),
{
    match stat {
        StatChoice::Def => "DEF",
        StatChoice::Atk => "ATK",
        StatChoice::Spd => "SPD",
    }
}

/// The stat menu prompt, e.g. `!! +[1] to DEF[Z] ATK[X] SPD[C] [RACER] !!`.
pub fn stat_menu_prompt(fighter_type: FighterType) -> (s: String)
    ensures
        s@ == "!! +[1] to DEF[Z] ATK[X] SPD[C] ["@ + fighter_name_spec(fighter_type) + "] !!"@,
{
    let mut s = "!! +[1] to DEF[Z] ATK[X] SPD[C] [".to_owned();
    s.append(fighter_name(fighter_type));
    s.append("] !!");
    s
}

/// The confirmation prompt, e.g. `!! CONFIRM: +1 ATK [SOLDIER]  y/n !!`.
pub fn confirm_prompt(stat: StatChoice, fighter_type: FighterType) -> (s: String)
    ensures
        s@ == "!! CONFIRM: +1 "@ + stat_name_spec(stat) + " ["@ + fighter_name_spec(fighter_type)
            + "]  y/n !!"@,
{
    let mut s = "!! CONFIRM: +1 ".to_owned();
    s.append(stat_name(stat));
    s.append(" [");
    s.append(fighter_name(fighter_type));
    s.append("]  y/n !!");
    s
}

/// Announced when the last point has been spent.
pub const STAT_INCREASED: &'static str = "STAT INCREASED!";

/// Spending stat points only ever lowers the points of the fighter being
/// levelled, by one per confirmed increase, and never below zero.
pub proof fn lemma_lvl_up_key_spends_at_most_one(
    state: LvlUpState,
    key: LvlUpKey,
    active: FighterType,
    points: StatPoints,
    t: FighterType,
)
    ensures
        ({
            let r = lvl_up_key_spec(state, key, active, points);
            &&& r.2.of(t) <= points.of(t)
            &&& r.2.of(t) + 1 >= points.of(t)
            &&& (r.2.of(t) < points.of(t) <==> r.1 is StatIncreased && r.1->StatIncreased_fighter_type == t)
        }),
{
}

/// The level-up screen's keys: a key it does not use changes nothing; TAB
/// (for the fighter on screen, who has points) opens the stat menu; Z, X and C
/// pick defense, attack and speed on the stat menu only; Y spends one point of
/// the fighter being levelled on the stat waiting for confirmation; N goes back
/// to the stat menu. While a stat waits for confirmation, only Y and N act.
pub proof fn lemma_lvl_up_key_laws(
    state: LvlUpState,
    key: LvlUpKey,
    active: FighterType,
    points: StatPoints,
)
    ensures
        ({
            let (next, action, left) = lvl_up_key_spec(state, key, active, points);
            &&& action == LvlUpAction::NotHandled ==> next == state && left == points
            &&& (action == LvlUpAction::Handled || action is ShowConfirm || action is ShowStatMenu)
                ==> left == points
            &&& key == LvlUpKey::Other ==> action == LvlUpAction::NotHandled
            &&& state == LvlUpState::Closed ==> action == LvlUpAction::NotHandled
            &&& state is ConfirmingStat && key != LvlUpKey::Y && key != LvlUpKey::N ==> action
                == LvlUpAction::NotHandled
            &&& state == LvlUpState::SelectingStat ==> (action == LvlUpAction::NotHandled <==> (key
                != LvlUpKey::Z && key != LvlUpKey::X && key != LvlUpKey::C))
            &&& state is PendingTab ==> (action == LvlUpAction::NotHandled <==> !(key == LvlUpKey::Tab
                && state->PendingTab_fighter_type == active))
            &&& action is ShowConfirm ==> {
                &&& state == LvlUpState::SelectingStat
                &&& action->ShowConfirm_fighter_type == active
                &&& next == (LvlUpState::ConfirmingStat {
                    stat_to_increase: action->ShowConfirm_stat,
                    fighter_type: active,
                })
                &&& (key == LvlUpKey::Z && action->ShowConfirm_stat == StatChoice::Def) || (key
                    == LvlUpKey::X && action->ShowConfirm_stat == StatChoice::Atk) || (key
                    == LvlUpKey::C && action->ShowConfirm_stat == StatChoice::Spd)
            }
            &&& action is ShowStatMenu ==> {
                &&& next == LvlUpState::SelectingStat
                &&& action->ShowStatMenu_fighter_type == active
                &&& (state is PendingTab && key == LvlUpKey::Tab) || (state is ConfirmingStat && key
                    == LvlUpKey::N)
            }
            &&& action is StatIncreased ==> {
                let t = action->StatIncreased_fighter_type;
                &&& key == LvlUpKey::Y
                &&& state == (LvlUpState::ConfirmingStat {
                    stat_to_increase: action->StatIncreased_stat,
                    fighter_type: t,
                })
                &&& left.of(t) + 1 == points.of(t)
                &&& forall|u: FighterType| u != t ==> left.of(u) == points.of(u)
                &&& action->StatIncreased_points_left == (left.of(t) > 0)
                &&& next == if left.of(t) > 0 {
                    LvlUpState::SelectingStat
                } else {
                    LvlUpState::Closed
                }
            }
        }),
{
}

/// The strike frame shown next: frames cycle through the `frames` strike textures.
pub fn next_strike_frame(frame: usize, frames: usize) -> (next: usize)
    requires
        frames > 0,
        frame < usize::MAX,
    ensures
        next == (frame + 1) % (frames as int),
        next < frames,
{
    (frame + 1) % frames
}

/// Whether a point hit counts as a connected hit of the Racer's combo (strikes 1 to 4).
pub fn combo_hit_connects(point_hit: bool, finisher_hit_count: u32, fighter_type: FighterType) -> (c: bool)
    ensures
        c == (point_hit && finisher_hit_count < 5 && fighter_type == FighterType::Racer),
{
    point_hit && finisher_hit_count < 5 && fighter_type == FighterType::Racer
}

/// Whether a point hit on a living enemy grants the Racer ATOMIC-STATE: it is
/// the fifth strike of the combo.
pub fn point_hit_grants_atomic_state(finisher_hit_count: u32, fighter_type: FighterType) -> (grant: bool)
    ensures
        grant == (finisher_hit_count == 5 && fighter_type == FighterType::Racer),
{
    finisher_hit_count == 5 && fighter_type == FighterType::Racer
}

/// The playlist comes back to where it started after a full round of tracks.
pub proof fn lemma_playlist_cycles(index: int)
    requires
        0 <= index < AMBIENT_PLAYLIST_LEN,
    ensures
        (index + AMBIENT_PLAYLIST_LEN as int) % (AMBIENT_PLAYLIST_LEN as int) == index,
        (index + 1) % (AMBIENT_PLAYLIST_LEN as int) < AMBIENT_PLAYLIST_LEN,
{
}

} // verus!
