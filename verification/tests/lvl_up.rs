use sbrx::mechanics::lvl_up::{check_for_level_up, MAX_LEVEL, PROGRESSION_POINTS};

#[test]
fn no_level_without_enough_kills() {
    let mut kills = 11;
    let mut level = 1;
    assert_eq!(check_for_level_up(&mut kills, &mut level), 0);
    assert_eq!((kills, level), (11, 1));
}

#[test]
fn exact_threshold_levels_once_and_spends_kills() {
    let mut kills = 12;
    let mut level = 1;
    assert_eq!(check_for_level_up(&mut kills, &mut level), 1);
    assert_eq!((kills, level), (0, 2));
}

#[test]
fn leftover_kills_carry_over() {
    let mut kills = 36;
    let mut level = 1;
    assert_eq!(check_for_level_up(&mut kills, &mut level), 1);
    assert_eq!((kills, level), (24, 2));
}

#[test]
fn several_levels_in_one_call() {
    let mut kills = 12 + 25 + 50 + 7;
    let mut level = 1;
    assert_eq!(check_for_level_up(&mut kills, &mut level), 3);
    assert_eq!((kills, level), (7, 4));
}

#[test]
fn climbs_to_max_level_and_stops() {
    let total: u32 = PROGRESSION_POINTS.iter().sum();
    assert_eq!(total, 204_887);
    let mut kills = total + 1_000;
    let mut level = 1;
    assert_eq!(check_for_level_up(&mut kills, &mut level), 14);
    assert_eq!(level, MAX_LEVEL);
    assert_eq!(kills, 1_000);
}

#[test]
fn max_level_gains_nothing() {
    let mut kills = 500_000;
    let mut level = 15;
    assert_eq!(check_for_level_up(&mut kills, &mut level), 0);
    assert_eq!((kills, level), (500_000, 15));
}

#[test]
fn second_call_gains_nothing() {
    let mut kills = 1_234;
    let mut level = 2;
    let first = check_for_level_up(&mut kills, &mut level);
    assert_eq!(first, 5); // 25 + 50 + 100 + 200 + 400 = 775 <= 1234 < 775 + 800
    assert_eq!((kills, level), (459, 7));
    assert_eq!(check_for_level_up(&mut kills, &mut level), 0);
    assert_eq!((kills, level), (459, 7));
}
