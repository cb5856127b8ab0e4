use sbrx::entities::CpuVariant::{
    BloodIdol, GiantMantis, LightReaver, NightReaver, Raptor, RazorFiend, TRex, VoidTempest,
};
use sbrx::entities::CpuVariant;
use sbrx::mechanics::wave::{DefeatOutcome, WaveManager, WaveState, WaveStatModifiers};

#[test]
fn new_manager_is_idle() {
    let m = WaveManager::new();
    assert_eq!(m.state, WaveState::Inactive);
    assert!(!m.is_active());
    assert_eq!(m.current_wave, 0);
    assert_eq!(m.total_waves, 0);
    assert!(m.get_ui_text("30").is_none());
}

#[test]
fn start_encounter_begins_first_wave() {
    let mut m = WaveManager::new();
    assert!(m.start_encounter(3));
    assert_eq!(m.state, WaveState::Spawning);
    assert_eq!(m.current_wave, 1);
    assert_eq!(m.total_waves, 3);
    assert_eq!(m.targets_this_wave(), 3);
    assert_eq!(m.spawned_this_wave(), 0);
}

#[test]
fn start_encounter_while_active_is_ignored() {
    let mut m = WaveManager::new();
    assert!(m.start_encounter(2));
    m.notify_enemy_defeated();
    assert!(!m.start_encounter(7));
    assert_eq!(m.total_waves, 2);
    assert_eq!(m.get_ui_text("5"), Some("WAVE 1 / 2   |   SURVIVE: 5s   |   TARGETS: 2".to_string()));
}

#[test]
fn update_spawns_until_target_count() {
    let mut m = WaveManager::new();
    m.start_encounter(1);
    for _ in 0..3 {
        assert!(m.update(false, true));
        m.notify_enemy_spawned();
    }
    assert!(!m.update(false, true));
    assert!(!m.update(false, false));
    assert_eq!(m.state, WaveState::Spawning);
}

#[test]
fn survival_timeout_turns_to_frenzy() {
    let mut m = WaveManager::new();
    m.start_encounter(1);
    assert!(!m.update(true, false));
    assert_eq!(m.state, WaveState::Frenzy);
    // stays in frenzy
    m.update(true, false);
    assert_eq!(m.state, WaveState::Frenzy);
}

#[test]
fn idle_manager_never_spawns_nor_frenzies() {
    let mut m = WaveManager::new();
    assert!(!m.update(true, true));
    assert_eq!(m.state, WaveState::Inactive);
}

#[test]
fn defeats_advance_waves_and_clear_encounter() {
    let mut m = WaveManager::new();
    m.start_encounter(2);
    assert_eq!(m.notify_enemy_defeated(), DefeatOutcome::Counted);
    assert_eq!(m.notify_enemy_defeated(), DefeatOutcome::Counted);
    assert_eq!(m.notify_enemy_defeated(), DefeatOutcome::NextWave);
    assert_eq!(m.current_wave, 2);
    assert_eq!(m.targets_this_wave(), 3);
    assert_eq!(m.state, WaveState::Spawning);
    assert_eq!(m.notify_enemy_defeated(), DefeatOutcome::Counted);
    assert_eq!(m.notify_enemy_defeated(), DefeatOutcome::Counted);
    assert_eq!(m.notify_enemy_defeated(), DefeatOutcome::EncounterCleared);
    assert!(!m.is_active());
    assert_eq!(m.current_wave, 0);
    assert_eq!(m.notify_enemy_defeated(), DefeatOutcome::Ignored);
}

#[test]
fn four_wave_encounter_takes_thirty_four_defeats() {
    let mut m = WaveManager::new();
    m.start_encounter(4);
    let mut defeats = 0;
    while m.is_active() {
        m.notify_enemy_defeated();
        defeats += 1;
    }
    assert_eq!(defeats, 3 + 3 + 3 + 25);
}

#[test]
fn zero_wave_encounter_still_runs_one_wave() {
    let mut m = WaveManager::new();
    assert!(m.start_encounter(0));
    let mut defeats = 0;
    while m.is_active() {
        assert_eq!(m.current_wave, 1);
        m.notify_enemy_defeated();
        defeats += 1;
    }
    assert_eq!(defeats, 3);
}

#[test]
fn wave_four_has_twenty_five_targets() {
    let mut m = WaveManager::new();
    m.start_encounter(5);
    for _ in 0..9 {
        m.notify_enemy_defeated();
    }
    assert_eq!(m.current_wave, 4);
    assert_eq!(m.targets_this_wave(), 25);
}

#[test]
fn reset_returns_to_idle() {
    let mut m = WaveManager::new();
    m.start_encounter(3);
    m.notify_enemy_spawned();
    m.update(true, false);
    m.enrage_buff_applied = true;
    m.reset();
    assert_eq!(m.state, WaveState::Inactive);
    assert_eq!(m.current_wave, 0);
    assert_eq!(m.spawned_this_wave(), 0);
    assert!(!m.enrage_buff_applied);
}

#[test]
fn next_wave_clears_enrage_flag() {
    let mut m = WaveManager::new();
    m.start_encounter(2);
    m.update(true, false);
    m.enrage_buff_applied = true;
    for _ in 0..3 {
        m.notify_enemy_defeated();
    }
    assert_eq!(m.current_wave, 2);
    assert_eq!(m.state, WaveState::Spawning);
    assert!(!m.enrage_buff_applied);
}

#[test]
fn stat_modifiers_per_wave() {
    let mut m = WaveManager::new();
    let base = WaveStatModifiers::default();
    assert_eq!(base, WaveStatModifiers { hp_percent: 100, damage_percent: 100, speed_percent: 100 });
    assert_eq!(m.get_stat_modifiers_for_current_wave(), base);
    m.current_wave = 1;
    assert_eq!(m.get_stat_modifiers_for_current_wave(), base);
    m.current_wave = 2;
    assert_eq!(
        m.get_stat_modifiers_for_current_wave(),
        WaveStatModifiers { hp_percent: 150, damage_percent: 100, speed_percent: 100 }
    );
    m.current_wave = 3;
    assert_eq!(
        m.get_stat_modifiers_for_current_wave(),
        WaveStatModifiers { hp_percent: 200, damage_percent: 125, speed_percent: 100 }
    );
    for w in [4, 5, 40] {
        m.current_wave = w;
        assert_eq!(
            m.get_stat_modifiers_for_current_wave(),
            WaveStatModifiers { hp_percent: 250, damage_percent: 150, speed_percent: 120 }
        );
    }
}

#[test]
fn ui_text_reports_wave_and_remaining_targets() {
    let mut m = WaveManager::new();
    m.start_encounter(3);
    m.notify_enemy_defeated();
    assert_eq!(
        m.get_ui_text("27"),
        Some("WAVE 1 / 3   |   SURVIVE: 27s   |   TARGETS: 2".to_string())
    );
    m.update(true, false);
    assert_eq!(
        m.get_ui_text("0"),
        Some("WAVE 1 / 3   |   FRENZY   |   TARGETS: 2".to_string())
    );
    m.state = WaveState::Clearing;
    assert_eq!(m.get_ui_text("0"), None);
}

#[test]
fn ui_text_in_a_late_wave() {
    let mut m = WaveManager::new();
    m.start_encounter(12);
    for _ in 0..10 {
        m.notify_enemy_defeated();
    }
    assert_eq!(
        m.get_ui_text("-1"),
        Some("WAVE 4 / 12   |   SURVIVE: -1s   |   TARGETS: 24".to_string())
    );
}

#[test]
fn spawn_tables_by_floor() {
    assert_eq!(WaveManager::get_spawn_table_for_floor(1), vec![(NightReaver, 1)]);
    assert_eq!(WaveManager::get_spawn_table_for_floor(0), vec![(LightReaver, 1)]);
    assert_eq!(
        WaveManager::get_spawn_table_for_floor(-1),
        vec![(LightReaver, 1), (NightReaver, 1)]
    );
    assert_eq!(
        WaveManager::get_spawn_table_for_floor(-2),
        vec![(LightReaver, 2), (NightReaver, 2), (VoidTempest, 1)]
    );
    assert_eq!(WaveManager::get_spawn_table_for_floor(-3), vec![(RazorFiend, 1)]);
    assert_eq!(WaveManager::get_spawn_table_for_floor(7), vec![(NightReaver, 1)]);
    assert_eq!(WaveManager::get_spawn_table_for_floor(-4), vec![(NightReaver, 1)]);
}

#[test]
fn roll_selects_entry_by_weight_interval() {
    let table = WaveManager::get_spawn_table_for_floor(-2);
    let picks: Vec<CpuVariant> = (0..5).map(|r| WaveManager::variant_for_roll(&table, r)).collect();
    assert_eq!(picks, vec![LightReaver, LightReaver, NightReaver, NightReaver, VoidTempest]);
    // past the total weight: the last entry
    assert_eq!(WaveManager::variant_for_roll(&table, 99), VoidTempest);
    assert_eq!(WaveManager::variant_for_roll(&Vec::new(), 0), NightReaver);
}

#[test]
fn zero_weight_entries_are_skipped() {
    let table = vec![(TRex, 0), (Raptor, 2), (BloodIdol, 0), (GiantMantis, 1)];
    assert_eq!(WaveManager::variant_for_roll(&table, 0), Raptor);
    assert_eq!(WaveManager::variant_for_roll(&table, 1), Raptor);
    assert_eq!(WaveManager::variant_for_roll(&table, 2), GiantMantis);
}

#[test]
fn random_pick_comes_from_the_table() {
    let table = vec![(TRex, 0), (Raptor, 3), (GiantMantis, 1)];
    let mut seen_raptor = false;
    let mut seen_mantis = false;
    for _ in 0..400 {
        let v = WaveManager::pick_random_variant(&table);
        assert!(v == Raptor || v == GiantMantis);
        seen_raptor |= v == Raptor;
        seen_mantis |= v == GiantMantis;
    }
    assert!(seen_raptor && seen_mantis);
}

#[test]
fn random_pick_fallbacks() {
    assert_eq!(WaveManager::pick_random_variant(&Vec::new()), CpuVariant::NightReaver);
    let zero = vec![(CpuVariant::TRex, 0), (CpuVariant::Raptor, 0)];
    assert_eq!(WaveManager::pick_random_variant(&zero), CpuVariant::NightReaver);
    let single = vec![(CpuVariant::RazorFiend, 5)];
    for _ in 0..20 {
        assert_eq!(WaveManager::pick_random_variant(&single), CpuVariant::RazorFiend);
    }
}
