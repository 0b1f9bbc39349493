use screeps_colony::memory::{
    set_creeps, CreepCounts, CreepMemory, DecodeError, Roles, RoomMemory, Tasks,
};

const ALL_ROLES: [Roles; 3] = [Roles::Harvester, Roles::Fighter, Roles::Idle];
const EVERY_TASK: [Tasks; 4] = [Tasks::Harvest, Tasks::Deliver, Tasks::Patrol, Tasks::Unset];

#[test]
fn default_records() {
    assert_eq!(Roles::default(), Roles::Idle);
    assert_eq!(Tasks::default(), Tasks::Unset);
    assert_eq!(CreepMemory::default(), CreepMemory { role: Roles::Idle, task: Tasks::Unset });
    assert_eq!(CreepCounts::default(), CreepCounts { harvester: 0, fighter: 0 });
    assert_eq!(
        RoomMemory::default(),
        RoomMemory { wanted_creeps: CreepCounts { harvester: 0, fighter: 0 } }
    );
}

#[test]
fn default_creep_record_round_trips() {
    let (role, task) = CreepMemory::default().encode();
    assert_eq!((role, task), ("Idle", "None"));
    assert_eq!(CreepMemory::decode(Some(role), Some(task)), Ok(CreepMemory::default()));
}

#[test]
fn default_room_record_round_trips() {
    let (harvester, fighter) = RoomMemory::default().wanted_creeps.encode();
    assert_eq!((harvester, fighter), (0, 0));
    let counts = CreepCounts::decode(Some(harvester), Some(fighter));
    assert_eq!(RoomMemory::decode(Some(counts)), RoomMemory::default());
}

#[test]
fn every_creep_record_round_trips() {
    for role in ALL_ROLES {
        for task in EVERY_TASK {
            let memory = CreepMemory { role, task };
            let (role_name, task_name) = memory.encode();
            assert_eq!(CreepMemory::decode(Some(role_name), Some(task_name)), Ok(memory));
        }
    }
}

#[test]
fn every_room_record_round_trips() {
    for (harvester, fighter) in [(0, 0), (2, 0), (0, 7), (255, 255), (1, 254)] {
        let memory = RoomMemory { wanted_creeps: CreepCounts { harvester, fighter } };
        let (h, f) = memory.wanted_creeps.encode();
        assert_eq!((h, f), (harvester, fighter));
        assert_eq!(RoomMemory::decode(Some(CreepCounts::decode(Some(h), Some(f)))), memory);
    }
}

#[test]
fn missing_fields_take_their_defaults() {
    assert_eq!(CreepMemory::decode(None, None), Ok(CreepMemory::default()));
    assert_eq!(
        CreepMemory::decode(Some("Harvester"), None),
        Ok(CreepMemory { role: Roles::Harvester, task: Tasks::Unset })
    );
    assert_eq!(
        CreepMemory::decode(None, Some("Patrol")),
        Ok(CreepMemory { role: Roles::Idle, task: Tasks::Patrol })
    );
    assert_eq!(CreepCounts::decode(None, None), CreepCounts::default());
    assert_eq!(CreepCounts::decode(Some(4), None), CreepCounts { harvester: 4, fighter: 0 });
    assert_eq!(CreepCounts::decode(None, Some(9)), CreepCounts { harvester: 0, fighter: 9 });
    assert_eq!(RoomMemory::decode(None), RoomMemory::default());
}

#[test]
fn stored_names() {
    assert_eq!(Roles::Harvester.name(), "Harvester");
    assert_eq!(Roles::Fighter.name(), "Fighter");
    assert_eq!(Roles::Idle.name(), "Idle");
    assert_eq!(Tasks::Harvest.name(), "Harvest");
    assert_eq!(Tasks::Deliver.name(), "Deliver");
    assert_eq!(Tasks::Patrol.name(), "Patrol");
    assert_eq!(Tasks::Unset.name(), "None");
    for role in ALL_ROLES {
        assert_eq!(Roles::from_name(role.name()), Some(role));
    }
    for task in EVERY_TASK {
        assert_eq!(Tasks::from_name(task.name()), Some(task));
    }
}

#[test]
fn names_are_read_to_the_letter() {
    for name in ["", "harvester", "HARVESTER", "Harvest", "Harvester ", " Idle", "Idl", "Unset"] {
        assert_eq!(Roles::from_name(name), None);
    }
    for name in ["", "harvest", "Harvester", "Deliverx", "none", "Unset", "Patro", "Nöne"] {
        assert_eq!(Tasks::from_name(name), None);
    }
}

#[test]
fn unknown_role_is_an_error() {
    assert_eq!(CreepMemory::decode(Some("Builder"), Some("Harvest")), Err(DecodeError::UnknownRole));
    assert_eq!(CreepMemory::decode(Some("harvester"), None), Err(DecodeError::UnknownRole));
}

#[test]
fn unknown_task_is_an_error() {
    assert_eq!(CreepMemory::decode(Some("Harvester"), Some("Build")), Err(DecodeError::UnknownTask));
    assert_eq!(CreepMemory::decode(None, Some("")), Err(DecodeError::UnknownTask));
}

#[test]
fn unknown_role_is_reported_before_unknown_task() {
    assert_eq!(CreepMemory::decode(Some("Builder"), Some("Build")), Err(DecodeError::UnknownRole));
}

#[test]
fn tasks_that_fit_each_role() {
    let fits = |role, task| CreepMemory { role, task }.is_well_formed();
    assert!(fits(Roles::Harvester, Tasks::Harvest));
    assert!(fits(Roles::Harvester, Tasks::Deliver));
    assert!(fits(Roles::Harvester, Tasks::Unset));
    assert!(!fits(Roles::Harvester, Tasks::Patrol));
    assert!(fits(Roles::Fighter, Tasks::Patrol));
    assert!(!fits(Roles::Fighter, Tasks::Harvest));
    assert!(!fits(Roles::Fighter, Tasks::Deliver));
    assert!(!fits(Roles::Fighter, Tasks::Unset));
    assert!(fits(Roles::Idle, Tasks::Unset));
    assert!(!fits(Roles::Idle, Tasks::Harvest));
    assert!(!fits(Roles::Idle, Tasks::Deliver));
    assert!(!fits(Roles::Idle, Tasks::Patrol));
    assert!(CreepMemory::default().is_well_formed());
}

#[test]
fn set_creeps_changes_the_named_target_only() {
    let before = RoomMemory { wanted_creeps: CreepCounts { harvester: 1, fighter: 2 } };
    assert_eq!(
        set_creeps(before, "harvester".to_string(), 5),
        Ok(RoomMemory { wanted_creeps: CreepCounts { harvester: 5, fighter: 2 } })
    );
    assert_eq!(
        set_creeps(before, "fighter".to_string(), 0),
        Ok(RoomMemory { wanted_creeps: CreepCounts { harvester: 1, fighter: 0 } })
    );
    assert_eq!(
        set_creeps(RoomMemory::default(), "fighter".to_string(), 255),
        Ok(RoomMemory { wanted_creeps: CreepCounts { harvester: 0, fighter: 255 } })
    );
}

#[test]
fn set_creeps_rejects_other_names() {
    let before = RoomMemory { wanted_creeps: CreepCounts { harvester: 1, fighter: 2 } };
    for name in ["idle", "Harvester", "Fighter", "", "harvesters", "fighter "] {
        assert_eq!(set_creeps(before, name.to_string(), 3), Err("Invalid role".to_string()));
    }
}
