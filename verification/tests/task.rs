use sbrx::entities::CpuVariant::{
    BloodIdol, GiantMantis, GiantRattlesnake, LightReaver, NightReaver, Raptor, Rattlesnake,
    RazorFiend, TRex, VoidTempest,
};
use sbrx::entities::CpuVariant;
use sbrx::task::{TaskKind, TaskSystem};

fn descriptions(ts: &mut TaskSystem) -> Vec<(String, bool)> {
    let (active, open) = (ts.active, ts.open);
    ts.active = true;
    ts.open = true;
    let lines = ts.draw_lines().unwrap();
    ts.active = active;
    ts.open = open;
    lines.into_iter().map(|l| (l.description, l.completed)).collect()
}

#[test]
fn new_task_system_is_empty_and_closed() {
    let ts = TaskSystem::new();
    assert!(ts.task_count() == 0);
    assert!(!ts.active);
    assert!(!ts.open);
    assert!(!ts.auto_close_restarted);
}

#[test]
fn populate_taskbar1_adds_three_tasks_and_opens_panel() {
    let mut ts = TaskSystem::new();
    ts.populate_taskbar1();
    assert_eq!(
        descriptions(&mut ts),
        vec![
            ("DEFEAT 3 GIANT MANTIS".to_string(), false),
            ("DEFEAT 25 RATTLESNAKE".to_string(), false),
            ("DEFEAT 5 GIANT RATTLESNAKE".to_string(), false),
        ]
    );
    assert!(ts.open);
    assert!(ts.take_auto_close_restart());
    assert!(!ts.take_auto_close_restart());
}

#[test]
fn other_taskbars() {
    let mut ts = TaskSystem::new();
    ts.populate_taskbar2();
    ts.populate_taskbar3();
    ts.populate_taskbar4();
    let d: Vec<String> = descriptions(&mut ts).into_iter().map(|(d, _)| d).collect();
    assert_eq!(
        d,
        vec![
            "CLEAR RAPTOR NEST: FIELD[X1 Y0]",
            "DEFEAT 10 RAPTOR",
            "GET TO THE ROCKETBAY [X-2 Y5]",
            "DEFEAT 1 T-REX",
        ]
    );
}

#[test]
fn adding_a_listed_task_changes_nothing() {
    let mut ts = TaskSystem::new();
    ts.add_task("FIND 10 SURVIVORS");
    ts.open = false;
    ts.take_auto_close_restart();
    ts.add_task("FIND 10 SURVIVORS");
    assert_eq!(ts.task_count(), 1);
    assert!(!ts.open);
    assert!(!ts.auto_close_restarted);
    assert!(ts.has_task("FIND 10 SURVIVORS"));
    assert!(!ts.has_task("FIND 11 SURVIVORS"));
}

#[test]
fn kill_counts_complete_tasks() {
    let mut ts = TaskSystem::new();
    ts.populate_taskbar1();
    ts.open = false;
    for _ in 0..2 {
        ts.increment_kill_count(CpuVariant::GiantMantis);
    }
    assert_eq!(ts.update(), 0);
    assert!(!ts.open);
    ts.increment_kill_count(CpuVariant::GiantMantis);
    assert_eq!(ts.giant_mantis_defeated, 3);
    assert_eq!(ts.update(), 1);
    assert!(ts.open);
    assert!(ts.is_task_complete("DEFEAT 3 GIANT MANTIS"));
    assert!(!ts.is_task_complete("DEFEAT 25 RATTLESNAKE"));
    // already completed tasks are not counted again
    assert_eq!(ts.update(), 0);
}

#[test]
fn each_kill_kind_has_its_counter() {
    let mut ts = TaskSystem::new();
    for v in [
        GiantMantis, Rattlesnake, GiantRattlesnake, Raptor, TRex, BloodIdol, VoidTempest,
        LightReaver, NightReaver, RazorFiend,
    ] {
        ts.increment_kill_count(v);
    }
    ts.increment_kill_count(Raptor);
    assert_eq!(
        [
            ts.giant_mantis_defeated,
            ts.rattlesnake_defeated,
            ts.giant_rattlesnake_defeated,
            ts.raptor_defeated,
            ts.t_rex_defeated,
            ts.blood_idol_defeated,
            ts.void_tempest_defeated,
            ts.light_reaver_defeated,
            ts.night_reaver_defeated,
            ts.razor_fiend_defeated,
        ],
        [1, 1, 1, 2, 1, 1, 1, 1, 1, 1]
    );
}

#[test]
fn several_completions_in_one_update() {
    let mut ts = TaskSystem::new();
    ts.populate_taskbar2();
    ts.populate_taskbar3();
    ts.mark_raptor_nest_cleared();
    ts.mark_rocketbay_found();
    ts.raptor_defeated = 9;
    assert_eq!(ts.update(), 2);
    assert_eq!(
        descriptions(&mut ts).into_iter().map(|(_, c)| c).collect::<Vec<_>>(),
        vec![true, false, true]
    );
}

#[test]
fn survivors_unlock_the_fighter_jet_chain() {
    let mut ts = TaskSystem::new();
    ts.add_task("FIND 10 SURVIVORS");
    ts.survivors_found = 10;
    assert_eq!(ts.update(), 1);
    assert_eq!(
        descriptions(&mut ts),
        vec![
            ("FIND 10 SURVIVORS".to_string(), true),
            ("BOARD THE FIGHTERJET".to_string(), false),
            ("FLY TO FORT SILO [X-25 Y25]".to_string(), false),
        ]
    );
    // boarding is only completed explicitly
    ts.survivors_found = 11;
    assert_eq!(ts.update(), 0);
    assert!(ts.mark_fighter_jet_as_boarded());
    assert!(!ts.mark_fighter_jet_as_boarded());
    assert!(ts.is_task_complete("BOARD THE FIGHTERJET"));

    ts.mark_fort_silo_reached();
    assert_eq!(ts.update(), 1);
    assert!(ts.has_task("DEFEAT THE FLYING SAUCER"));
    ts.flying_saucer_defeated = true;
    assert_eq!(ts.update(), 1);
    assert!(ts.has_task("LAND ON FORT SILO"));
    ts.landed_on_fort_silo = true;
    assert_eq!(ts.update(), 1);
    assert!(ts.has_task("SPEAK TO THE GRAND COMMANDER"));
    ts.mark_grand_commander_spoken_to();
    assert_eq!(ts.update(), 1);
    assert!(ts.has_task("LAND THE FIGHTERJET ON THE RACETRACK"));
    ts.mark_racer_returned_to_racetrack();
    assert_eq!(ts.update(), 1);
    assert!(ts.has_task("PROCEED TO THE STARTING LINE"));
    assert!(!ts.is_task_complete("PROCEED TO THE STARTING LINE"));
    ts.open = false;
    ts.mark_proceed_to_starting_line_complete();
    assert!(ts.is_task_complete("PROCEED TO THE STARTING LINE"));
    assert!(ts.open);
    assert_eq!(ts.task_count(), 8);
}

#[test]
fn unlocked_tasks_wait_for_the_next_update() {
    let mut ts = TaskSystem::new();
    ts.add_task("FIND 10 SURVIVORS");
    ts.survivors_found = 10;
    ts.fort_silo_reached = true;
    // the newly listed FLY TO FORT SILO task is checked only on the next update
    assert_eq!(ts.update(), 1);
    assert!(!ts.is_task_complete("FLY TO FORT SILO [X-25 Y25]"));
    assert_eq!(ts.update(), 1);
    assert!(ts.is_task_complete("FLY TO FORT SILO [X-25 Y25]"));
}

#[test]
fn marking_an_unlisted_task_does_nothing() {
    let mut ts = TaskSystem::new();
    assert!(!ts.mark_fighter_jet_as_boarded());
    ts.mark_proceed_to_starting_line_complete();
    assert!(ts.task_count() == 0);
    assert!(!ts.open);
}

#[test]
fn unknown_tasks_are_never_completed() {
    let mut ts = TaskSystem::new();
    ts.add_task("DEFEAT THE T-REX");
    ts.t_rex_defeated = 5;
    assert_eq!(ts.update(), 0);
    assert!(!ts.is_task_complete("DEFEAT THE T-REX"));
}

#[test]
fn panel_closes_when_countdown_expires() {
    let mut ts = TaskSystem::new();
    ts.add_task("DEFEAT 1 T-REX");
    ts.update_timer(false);
    assert!(ts.open);
    ts.update_timer(true);
    assert!(!ts.open);
    ts.update_timer(true);
    assert!(!ts.open);
}

#[test]
fn draw_lines_number_and_mark_tasks() {
    let mut ts = TaskSystem::new();
    ts.populate_taskbar4();
    ts.add_task("FIND 10 SURVIVORS");
    assert!(ts.draw_lines().is_none()); // inactive
    ts.active = true;
    ts.t_rex_defeated = 1;
    ts.update();
    let texts: Vec<String> = ts.draw_lines().unwrap().into_iter().map(|l| l.text).collect();
    assert_eq!(texts, vec!["x 1. DEFEAT 1 T-REX".to_string(), "  2. FIND 10 SURVIVORS".to_string()]);
    ts.open = false;
    assert!(ts.draw_lines().is_none());
}

#[test]
fn task_kind_texts() {
    assert_eq!(TaskKind::GetToRocketbay.text(), "GET TO THE ROCKETBAY [X-2 Y5]");
    assert_eq!(TaskKind::ProceedToStartingLine.text(), "PROCEED TO THE STARTING LINE");
}
