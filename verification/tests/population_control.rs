use screeps_colony::memory::{CreepCounts, CreepMemory, Roles, Tasks};
use screeps_colony::population::{
    body_for, conclude_spawn, first_shortfall, starting_record, take_census, Census, Part,
    SpawnError, Spawned,
};

fn record(role: Roles) -> CreepMemory {
    starting_record(role)
}

#[test]
fn census_counts_harvesters_and_fighters_only() {
    let records = vec![
        record(Roles::Harvester),
        record(Roles::Idle),
        record(Roles::Fighter),
        CreepMemory { role: Roles::Harvester, task: Tasks::Deliver },
        record(Roles::Idle),
        CreepMemory { role: Roles::Harvester, task: Tasks::Patrol },
    ];
    assert_eq!(take_census(&records), Census { harvesters: 3, fighters: 1 });
}

#[test]
fn census_of_an_empty_room_is_zero() {
    assert_eq!(take_census(&Vec::new()), Census { harvesters: 0, fighters: 0 });
}

#[test]
fn census_goes_beyond_what_a_target_can_hold() {
    let records = vec![record(Roles::Harvester); 300];
    assert_eq!(take_census(&records), Census { harvesters: 300, fighters: 0 });
    let wanted = CreepCounts { harvester: 255, fighter: 0 };
    assert_eq!(first_shortfall(&take_census(&records), &wanted), None);
}

#[test]
fn census_does_not_depend_on_the_order() {
    let mut records = vec![
        record(Roles::Fighter),
        record(Roles::Harvester),
        record(Roles::Idle),
        record(Roles::Harvester),
    ];
    let before = take_census(&records);
    records.reverse();
    assert_eq!(take_census(&records), before);
    records.swap(0, 2);
    assert_eq!(take_census(&records), before);
}

#[test]
fn one_missing_harvester_is_asked_for() {
    let wanted = CreepCounts { harvester: 2, fighter: 0 };
    let census = take_census(&vec![record(Roles::Harvester)]);
    assert_eq!(census, Census { harvesters: 1, fighters: 0 });
    assert_eq!(first_shortfall(&census, &wanted), Some(Roles::Harvester));
    let created = conclude_spawn(Roles::Harvester, "Ada Lovelace".to_string(), true).unwrap();
    assert_eq!(created.name, "Ada Lovelace");
    assert_eq!(created.memory, CreepMemory { role: Roles::Harvester, task: Tasks::Harvest });
}

#[test]
fn harvesters_come_before_fighters() {
    let wanted = CreepCounts { harvester: 2, fighter: 3 };
    let short_of_both = Census { harvesters: 1, fighters: 0 };
    assert_eq!(first_shortfall(&short_of_both, &wanted), Some(Roles::Harvester));
    let short_of_fighters = Census { harvesters: 2, fighters: 2 };
    assert_eq!(first_shortfall(&short_of_fighters, &wanted), Some(Roles::Fighter));
    let more_than_enough = Census { harvesters: 5, fighters: 2 };
    assert_eq!(first_shortfall(&more_than_enough, &wanted), Some(Roles::Fighter));
}

#[test]
fn nothing_is_asked_for_when_targets_are_met() {
    let wanted = CreepCounts { harvester: 2, fighter: 3 };
    assert_eq!(first_shortfall(&Census { harvesters: 2, fighters: 3 }, &wanted), None);
    assert_eq!(first_shortfall(&Census { harvesters: 9, fighters: 9 }, &wanted), None);
    let none = CreepCounts { harvester: 0, fighter: 0 };
    assert_eq!(first_shortfall(&Census { harvesters: 0, fighters: 0 }, &none), None);
}

#[test]
fn comparison_made_twice_gives_the_same_role() {
    let records = vec![record(Roles::Harvester), record(Roles::Idle)];
    for wanted in [
        CreepCounts { harvester: 2, fighter: 0 },
        CreepCounts { harvester: 1, fighter: 1 },
        CreepCounts { harvester: 0, fighter: 0 },
    ] {
        let first = first_shortfall(&take_census(&records), &wanted);
        let refused = first.map(|role| conclude_spawn(role, "Grace Hopper".to_string(), false));
        assert!(refused.map_or(true, |r| r == Err(SpawnError::NotEnough)));
        let second = first_shortfall(&take_census(&records), &wanted);
        assert_eq!(first, second);
    }
}

#[test]
fn a_refused_request_creates_nothing() {
    assert_eq!(
        conclude_spawn(Roles::Harvester, "Alan Turing".to_string(), false),
        Err(SpawnError::NotEnough)
    );
    assert_eq!(
        conclude_spawn(Roles::Fighter, "Alan Turing".to_string(), false),
        Err(SpawnError::NotEnough)
    );
}

#[test]
fn an_accepted_request_names_the_creep_and_its_first_record() {
    assert_eq!(
        conclude_spawn(Roles::Fighter, "Edsger Dijkstra".to_string(), true),
        Ok(Spawned {
            name: "Edsger Dijkstra".to_string(),
            memory: CreepMemory { role: Roles::Fighter, task: Tasks::Patrol },
        })
    );
}

#[test]
fn starting_records_by_role() {
    assert_eq!(
        starting_record(Roles::Harvester),
        CreepMemory { role: Roles::Harvester, task: Tasks::Harvest }
    );
    assert_eq!(
        starting_record(Roles::Fighter),
        CreepMemory { role: Roles::Fighter, task: Tasks::Patrol }
    );
    assert_eq!(starting_record(Roles::Idle), CreepMemory { role: Roles::Idle, task: Tasks::Unset });
    for role in [Roles::Harvester, Roles::Fighter, Roles::Idle] {
        assert!(starting_record(role).is_well_formed());
    }
}

#[test]
fn bodies_by_role() {
    assert_eq!(
        body_for(Roles::Harvester),
        vec![Part::Work, Part::Move, Part::Carry, Part::Move, Part::Carry]
    );
    assert_eq!(
        body_for(Roles::Fighter),
        vec![Part::Move, Part::Move, Part::Move, Part::RangedAttack]
    );
    assert_eq!(
        body_for(Roles::Idle),
        vec![Part::Work, Part::Move, Part::Carry, Part::Move, Part::Carry]
    );
}
