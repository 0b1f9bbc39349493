use screeps_colony::engine::{game_loop, TickReport};

#[test]
fn a_tick_without_creeps_or_spawns_reports_nothing() {
    let report = game_loop(&Vec::new(), &Vec::new());
    assert_eq!(report, TickReport { creeps: Vec::new(), spawns: Vec::new() });
}
