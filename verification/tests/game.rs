use sbrx::game::TextureSource::{Base, Strike};
use sbrx::entities::{CpuVariant, FighterType};
use sbrx::game::{
    ambient_track_to_start, award_kill_score, check_and_display_demonic_presence,
    cpu_texture_path, cpu_texture_plan, finisher_stun, first_existing_assets_dir, fighter_name,
    grants_atomic_state, level_up_prompt, next_playlist_index, CpuStatus, FighterRecord,
    LvlUpState, StunLevel, TextureSource,
};
use sbrx::game::{
    combo_hit_connects, confirm_prompt, lvl_up_key, next_strike_frame,
    point_hit_grants_atomic_state, stat_menu_prompt, stat_name, task_reward_points, LvlUpAction,
    LvlUpKey, StatChoice, StatPoints, STAT_INCREASED,
};

#[test]
fn kill_score_without_level_up_keeps_state() {
    let mut record = FighterRecord::new();
    let mut state = LvlUpState::Closed;
    assert_eq!(award_kill_score(&mut record, FighterType::Racer, 5, &mut state), 0);
    assert_eq!(record, FighterRecord { kills: 5, level: 1, stat_points: 0 });
    assert_eq!(state, LvlUpState::Closed);
}

#[test]
fn kill_score_levels_up_and_grants_points() {
    let mut record = FighterRecord { kills: 10, level: 1, stat_points: 1 };
    let mut state = LvlUpState::SelectingStat;
    assert_eq!(award_kill_score(&mut record, FighterType::Soldier, 30, &mut state), 2);
    assert_eq!(record, FighterRecord { kills: 3, level: 3, stat_points: 3 });
    assert_eq!(state, LvlUpState::PendingTab { fighter_type: FighterType::Soldier });
    assert_eq!(level_up_prompt(FighterType::Soldier, record.stat_points), "!! [TAB] TO LVL UP [SOLDIER] +[3] !!");
}

#[test]
fn fighter_names() {
    assert_eq!(fighter_name(FighterType::Racer), "RACER");
    assert_eq!(fighter_name(FighterType::Soldier), "SOLDIER");
    assert_eq!(fighter_name(FighterType::Raptor), "RAPTOR");
    assert_eq!(level_up_prompt(FighterType::Raptor, 12), "!! [TAB] TO LVL UP [RAPTOR] +[12] !!");
}

#[test]
fn demonic_presence_needs_fog_and_a_living_blood_idol() {
    let alive = CpuStatus { variant: CpuVariant::BloodIdol, dead: false };
    let dead = CpuStatus { variant: CpuVariant::BloodIdol, dead: true };
    let other = CpuStatus { variant: CpuVariant::Raptor, dead: false };
    assert!(check_and_display_demonic_presence(true, &[other, alive]));
    assert!(!check_and_display_demonic_presence(false, &[other, alive]));
    assert!(!check_and_display_demonic_presence(true, &[other, dead]));
    assert!(!check_and_display_demonic_presence(true, &[]));
}

#[test]
fn playlist_names_and_wrapping() {
    assert_eq!(ambient_track_to_start(true, 0), Some("sdtrk1".to_string()));
    assert_eq!(ambient_track_to_start(true, 14), Some("sdtrk15".to_string()));
    assert_eq!(ambient_track_to_start(false, 3), None);
    assert_eq!(next_playlist_index(0), 1);
    assert_eq!(next_playlist_index(14), 0);
    let mut i = 6;
    for _ in 0..15 {
        i = next_playlist_index(i);
    }
    assert_eq!(i, 6);
}

#[test]
fn texture_plan_falls_back_to_base() {
    assert_eq!(cpu_texture_plan([true, true, true]), vec![Base, Strike(1), Strike(2), Strike(3)]);
    assert_eq!(cpu_texture_plan([false, true, false]), vec![Base, Base, Strike(2), Base]);
    assert_eq!(cpu_texture_plan([false, false, false]), vec![Base, Base, Base, Base]);
}

#[test]
fn texture_paths() {
    assert_eq!(cpu_texture_path("raptor", TextureSource::Base), "entity/raptor/raptor.png");
    assert_eq!(
        cpu_texture_path("t-rex", TextureSource::Strike(2)),
        "entity/t-rex/t-rexStrike2.png"
    );
}

#[test]
fn first_existing_dir() {
    assert_eq!(first_existing_assets_dir(&vec![false, true, true]), Some(1));
    assert_eq!(first_existing_assets_dir(&vec![true, false]), Some(0));
    assert_eq!(first_existing_assets_dir(&vec![false, false]), None);
    assert_eq!(first_existing_assets_dir(&vec![]), None);
}

#[test]
fn finisher_stuns() {
    assert_eq!(finisher_stun(true, 3), StunLevel::Short);
    assert_eq!(finisher_stun(true, 5), StunLevel::Long);
    assert_eq!(finisher_stun(true, 4), StunLevel::NoStun);
    assert_eq!(finisher_stun(false, 5), StunLevel::NoStun);
}

#[test]
fn atomic_state_grant() {
    assert!(grants_atomic_state(5, FighterType::Racer, true, false));
    assert!(!grants_atomic_state(5, FighterType::Racer, true, true));
    assert!(!grants_atomic_state(5, FighterType::Racer, false, false));
    assert!(!grants_atomic_state(4, FighterType::Racer, true, false));
    assert!(!grants_atomic_state(5, FighterType::Soldier, true, false));
}

#[test]
fn level_up_screen_walkthrough() {
    let mut state = LvlUpState::PendingTab { fighter_type: FighterType::Racer };
    let mut points = StatPoints { racer: 2, soldier: 0, raptor: 0 };
    // keys for another fighter, or other keys, are not used
    assert_eq!(lvl_up_key(&mut state, LvlUpKey::Tab, FighterType::Soldier, &mut points), LvlUpAction::NotHandled);
    assert_eq!(lvl_up_key(&mut state, LvlUpKey::Z, FighterType::Racer, &mut points), LvlUpAction::NotHandled);
    assert_eq!(
        lvl_up_key(&mut state, LvlUpKey::Tab, FighterType::Racer, &mut points),
        LvlUpAction::ShowStatMenu { fighter_type: FighterType::Racer }
    );
    assert_eq!(state, LvlUpState::SelectingStat);
    assert_eq!(
        lvl_up_key(&mut state, LvlUpKey::X, FighterType::Racer, &mut points),
        LvlUpAction::ShowConfirm { stat: StatChoice::Atk, fighter_type: FighterType::Racer }
    );
    assert_eq!(
        lvl_up_key(&mut state, LvlUpKey::N, FighterType::Racer, &mut points),
        LvlUpAction::ShowStatMenu { fighter_type: FighterType::Racer }
    );
    lvl_up_key(&mut state, LvlUpKey::C, FighterType::Racer, &mut points);
    assert_eq!(
        lvl_up_key(&mut state, LvlUpKey::Y, FighterType::Racer, &mut points),
        LvlUpAction::StatIncreased { stat: StatChoice::Spd, fighter_type: FighterType::Racer, points_left: true }
    );
    assert_eq!(state, LvlUpState::SelectingStat);
    assert_eq!(points.racer, 1);
    lvl_up_key(&mut state, LvlUpKey::Z, FighterType::Racer, &mut points);
    assert_eq!(
        lvl_up_key(&mut state, LvlUpKey::Y, FighterType::Racer, &mut points),
        LvlUpAction::StatIncreased { stat: StatChoice::Def, fighter_type: FighterType::Racer, points_left: false }
    );
    assert_eq!(state, LvlUpState::Closed);
    assert_eq!(points, StatPoints { racer: 0, soldier: 0, raptor: 0 });
    assert_eq!(lvl_up_key(&mut state, LvlUpKey::Tab, FighterType::Racer, &mut points), LvlUpAction::NotHandled);
}

#[test]
fn level_up_tab_without_points_is_consumed() {
    let mut state = LvlUpState::PendingTab { fighter_type: FighterType::Raptor };
    let mut points = StatPoints { racer: 3, soldier: 3, raptor: 0 };
    assert_eq!(lvl_up_key(&mut state, LvlUpKey::Tab, FighterType::Raptor, &mut points), LvlUpAction::Handled);
    assert_eq!(state, LvlUpState::PendingTab { fighter_type: FighterType::Raptor });
}

#[test]
fn level_up_confirm_spends_the_confirmed_fighters_point() {
    let mut state = LvlUpState::ConfirmingStat { stat_to_increase: StatChoice::Atk, fighter_type: FighterType::Soldier };
    let mut points = StatPoints { racer: 5, soldier: 1, raptor: 0 };
    assert_eq!(
        lvl_up_key(&mut state, LvlUpKey::Y, FighterType::Racer, &mut points),
        LvlUpAction::StatIncreased { stat: StatChoice::Atk, fighter_type: FighterType::Soldier, points_left: false }
    );
    assert_eq!(points, StatPoints { racer: 5, soldier: 0, raptor: 0 });
    let mut empty = LvlUpState::ConfirmingStat { stat_to_increase: StatChoice::Def, fighter_type: FighterType::Raptor };
    assert_eq!(lvl_up_key(&mut empty, LvlUpKey::Y, FighterType::Raptor, &mut points), LvlUpAction::Handled);
    assert_eq!(lvl_up_key(&mut empty, LvlUpKey::Other, FighterType::Raptor, &mut points), LvlUpAction::NotHandled);
}

#[test]
fn level_up_prompts() {
    assert_eq!(stat_menu_prompt(FighterType::Racer), "!! +[1] to DEF[Z] ATK[X] SPD[C] [RACER] !!");
    assert_eq!(confirm_prompt(StatChoice::Atk, FighterType::Soldier), "!! CONFIRM: +1 ATK [SOLDIER]  y/n !!");
    assert_eq!(stat_name(StatChoice::Spd), "SPD");
    assert_eq!(STAT_INCREASED, "STAT INCREASED!");
}

#[test]
fn strike_frames_cycle() {
    assert_eq!(next_strike_frame(0, 3), 1);
    assert_eq!(next_strike_frame(2, 3), 0);
    assert_eq!(next_strike_frame(7, 3), 2);
}

#[test]
fn combo_rules() {
    assert!(combo_hit_connects(true, 4, FighterType::Racer));
    assert!(!combo_hit_connects(true, 5, FighterType::Racer));
    assert!(!combo_hit_connects(false, 2, FighterType::Racer));
    assert!(!combo_hit_connects(true, 2, FighterType::Soldier));
    assert!(point_hit_grants_atomic_state(5, FighterType::Racer));
    assert!(!point_hit_grants_atomic_state(3, FighterType::Racer));
    assert!(!point_hit_grants_atomic_state(5, FighterType::Raptor));
}

#[test]
fn playlist_index_is_free_while_music_plays() {
    assert_eq!(ambient_track_to_start(false, 99), None);
}

#[test]
fn task_rewards() {
    assert_eq!(task_reward_points(0), 0);
    assert_eq!(task_reward_points(3), 30);
}
