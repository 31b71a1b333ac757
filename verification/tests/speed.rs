use fungai::simulation::{GamePhase, GameState, HintsVisible, SimulationSpeed, SpeedKeys, speed_input_system};

fn keys(toggle_pause: bool, speed_up: bool, slow_down: bool) -> SpeedKeys {
    SpeedKeys { toggle_pause, speed_up, slow_down }
}

#[test]
fn space_toggles_pause() {
    let mut speed = SimulationSpeed::Normal;
    let reset = speed_input_system(keys(true, false, false), &mut speed);
    assert_eq!(speed, SimulationSpeed::Paused);
    assert_eq!(reset, None);
}

#[test]
fn plus_speeds_up() {
    let mut speed = SimulationSpeed::Normal;
    let reset = speed_input_system(keys(false, true, false), &mut speed);
    assert_eq!(speed, SimulationSpeed::Fast);
    assert_eq!(reset, Some(500));
}

#[test]
fn minus_slows_down() {
    let mut speed = SimulationSpeed::Fast;
    let reset = speed_input_system(keys(false, false, true), &mut speed);
    assert_eq!(speed, SimulationSpeed::Normal);
    assert_eq!(reset, Some(1000));
}

#[test]
fn toggle_resumes_at_normal_speed() {
    let mut speed = SimulationSpeed::Fastest;
    speed_input_system(keys(true, false, false), &mut speed);
    assert_eq!(speed, SimulationSpeed::Paused);
    let reset = speed_input_system(keys(true, false, false), &mut speed);
    assert_eq!(speed, SimulationSpeed::Normal);
    assert_eq!(reset, Some(1000));
}

#[test]
fn no_keys_leave_speed_and_timer_alone() {
    let mut speed = SimulationSpeed::Fast;
    assert_eq!(speed_input_system(keys(false, false, false), &mut speed), None);
    assert_eq!(speed, SimulationSpeed::Fast);
}

#[test]
fn keys_apply_in_order_within_a_frame() {
    // Toggle (Fast -> Paused), speed up (-> Normal), slow down (-> Paused).
    let mut speed = SimulationSpeed::Fast;
    assert_eq!(speed_input_system(keys(true, true, true), &mut speed), None);
    assert_eq!(speed, SimulationSpeed::Paused);
    let mut speed = SimulationSpeed::Paused;
    assert_eq!(speed_input_system(keys(false, true, false), &mut speed), Some(1000));
    assert_eq!(speed, SimulationSpeed::Normal);
}

#[test]
fn dial_steps_saturate_and_cycle() {
    assert_eq!(SimulationSpeed::Fastest.speed_up(), SimulationSpeed::Fastest);
    assert_eq!(SimulationSpeed::Paused.slow_down(), SimulationSpeed::Paused);
    assert_eq!(SimulationSpeed::Normal.slow_down(), SimulationSpeed::Paused);
    assert_eq!(SimulationSpeed::Fastest.slow_down(), SimulationSpeed::Fast);
    assert_eq!(SimulationSpeed::Paused.cycle_next().cycle_next().cycle_next().cycle_next(), SimulationSpeed::Paused);
    assert_eq!(SimulationSpeed::Fastest.cycle_next(), SimulationSpeed::Paused);
    assert!(SimulationSpeed::Paused.is_paused());
    assert!(!SimulationSpeed::Normal.is_paused());
    assert_eq!(SimulationSpeed::Fastest.tick_millis(), 250);
    assert_eq!(SimulationSpeed::Paused.tick_millis(), 1000);
    assert_eq!(SimulationSpeed::default_speed(), SimulationSpeed::Normal);
}

#[test]
fn labels_name_each_speed() {
    assert_eq!(SimulationSpeed::Paused.label(), "\u{23f8} Paused");
    assert_eq!(SimulationSpeed::Normal.label(), "\u{25b6} 1x");
    assert_eq!(SimulationSpeed::Fast.label(), "\u{25b6}\u{25b6} 2x");
    assert_eq!(SimulationSpeed::Fastest.label(), "\u{25b6}\u{25b6}\u{25b6} 4x");
}

#[test]
fn victory_needs_fragments_and_mushrooms() {
    let mut g = GameState::new();
    assert!(!g.victory());
    g.fragments_total = 2;
    g.fragments_fused = 2;
    g.mushrooms_required = 1;
    assert!(!g.victory());
    g.mushrooms_fruited = 1;
    assert!(g.victory());
    g.fragments_fused = 1;
    assert!(!g.victory());
}

#[test]
fn phases_and_hints_start_as_documented() {
    assert_eq!(GamePhase::default_phase(), GamePhase::Title);
    let h: HintsVisible = Default::default();
    assert!(h.0);
}
