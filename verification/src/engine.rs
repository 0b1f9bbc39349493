//! The engine at work in the world: a creep's turn and a spawn's turn carried
//! out, and the pass over all of them that makes up one tick.

use vstd::prelude::*;
use screeps::objects::{Creep, Room, StructureSpawn};
use crate::agent::{
    choose_deed, is_receiving, plan_turn, settle, sparing, turn_of, Answers, Deed, Load, Turn,
    TurnError,
};
use crate::memory::{CreepMemory, Roles, RoomMemory, Tasks};
use crate::population::{
    body_for, census_of, conclude_spawn, first_shortfall, shortfall, starting_memory, take_census,
    SpawnError, SpawnTurn, Spawned,
};
use crate::world::{
    approach, carried_energy, energy_capacity, free_energy_capacity, fresh_name, harvest,
    nearest_active_source, nearest_own_spawn, request_creep, room_controller, transfer_energy,
    upgrade, Target,
};

verus! {

/// A creep that takes part in a tick, with the room it is in and the record
/// that was read for it.
pub struct CreepEntry {
    pub creep: Creep,
    pub room: Room,
    pub memory: CreepMemory,
}

/// A spawn that takes part in a tick, with the record of its room and the
/// records of the creeps in that room.
pub struct SpawnEntry {
    pub spawn: StructureSpawn,
    pub memory: RoomMemory,
    pub residents: Vec<CreepMemory>,
}

/// How one creep's turn went: what the world answered and what came of it.
#[derive(Clone, Copy, Debug, PartialEq, Eq)]
pub struct CreepReport {
    pub seen: Answers,
    pub outcome: Result<Turn, TurnError>,
}

/// How a tick went, creep by creep and spawn by spawn, in the order in which
/// they were handed in.
#[derive(Debug, PartialEq, Eq)]
pub struct TickReport {
    pub creeps: Vec<CreepReport>,
    pub spawns: Vec<SpawnTurn>,
}

/// The report is the turn that the record and the reported answers call for,
/// and the answers are those of a turn that asked no more than it had to.
pub open spec fn creep_report_fits(memory: CreepMemory, report: CreepReport) -> bool {
    &&& report.outcome == turn_of(memory, report.seen)
    &&& sparing(memory, report.seen)
}

/// The turn asks for the role that is short among the residents, asks once
/// at most, and a creep that was created starts with the record of that role.
pub open spec fn spawn_turn_fits(
    memory: RoomMemory,
    residents: Seq<CreepMemory>,
    turn: SpawnTurn,
) -> bool {
    &&& turn.wanted == shortfall(census_of(residents), memory.wanted_creeps)
    &&& turn.requests() <= 1
    &&& turn.created matches Some(creep) ==> turn.wanted matches Some(role) && creep.memory
        == starting_memory(role)
}

/// Carries out one creep's turn in the world. Only a harvester looks at the
/// world at all. It reads its load and settles its record; looks for the
/// target that its task needs, asking for the controller only where no
/// spawn takes energy; tries the deed that `deed_of` names on that target;
/// and where the world refuses the deed, moves toward the target instead.
///
/// Reports what the world answered and, for those answers, the turn that
/// `turn_of` describes. The turn is abandoned only for a harvester whose
/// record says to patrol.
pub fn run_creep(creep: &Creep, room: &Room, memory: CreepMemory) -> (report: CreepReport)
    ensures
        creep_report_fits(memory, report),
        memory.role != Roles::Harvester || memory.task != Tasks::Patrol ==> report.outcome is Ok,
{
    let mut answers = Answers {
        load: Load { used: 0, capacity: 0 },
        source: false,
        spawn_free: None,
        controller: false,
        accepted: false,
        moved: false,
    };
    match memory.role {
        Roles::Harvester => {},
        _ => {
            return CreepReport { seen: answers, outcome: plan_turn(memory, answers) };
        },
    }
    answers.load = Load { used: carried_energy(creep), capacity: energy_capacity(creep) };
    let record = match settle(memory, answers.load) {
        Ok(record) => record,
        Err(e) => {
            return CreepReport { seen: answers, outcome: Err(e) };
        },
    };
    let mut source = None;
    let mut spawn = None;
    let mut controller = None;
    match record.task {
        Tasks::Harvest => {
            source = nearest_active_source(creep);
            answers.source = source.is_some();
        },
        Tasks::Deliver => {
            spawn = nearest_own_spawn(creep);
            answers.spawn_free = match &spawn {
                Some(spawn) => Some(free_energy_capacity(spawn)),
                None => None,
            };
            if !is_receiving(answers.spawn_free) {
                controller = room_controller(room);
                answers.controller = controller.is_some();
            }
        },
        Tasks::Patrol | Tasks::Unset => unreached(),
    }
    match choose_deed(record, answers) {
        None => {},
        Some(Deed::Harvest) => {
            let source = source.unwrap();
            answers.accepted = harvest(creep, &source).is_ok();
            if !answers.accepted {
                answers.moved = approach(creep, &Target::Source(source)).is_ok();
            }
        },
        Some(Deed::Transfer { amount }) => {
            let spawn = spawn.unwrap();
            answers.accepted = transfer_energy(creep, &spawn, amount).is_ok();
            if !answers.accepted {
                answers.moved = approach(creep, &Target::Spawn(spawn)).is_ok();
            }
        },
        Some(Deed::Upgrade) => {
            let controller = controller.unwrap();
            answers.accepted = upgrade(creep, &controller).is_ok();
            if !answers.accepted {
                answers.moved = approach(creep, &Target::Controller(controller)).is_ok();
            }
        },
    }
    CreepReport { seen: answers, outcome: plan_turn(memory, answers) }
}

/// Asks the spawn for a new creep of the given role, under a freshly drawn
/// name and with the body of that role. Where the spawn agrees, hands back
/// the name and the record that the new creep starts with; every refusal
/// comes back as `NotEnough`.
pub fn spawn_creep(spawn: &StructureSpawn, role: Roles) -> (r: Result<Spawned, SpawnError>)
    ensures
        r matches Ok(creep) ==> creep.memory == starting_memory(role),
        r matches Err(e) ==> e == SpawnError::NotEnough,
{
    let name = fresh_name();
    let body = body_for(role);
    let agreed = request_creep(spawn, &body, name.as_str()).is_ok();
    conclude_spawn(role, name, agreed)
}

/// Runs the population controller at one spawn: counts the room's creeps by
/// role, and where a role is short of its target, asks the spawn once for a
/// creep of the first such role. A refusal is not remembered: the next
/// tick's comparison asks again for as long as the role is short.
pub fn run_spawn(spawn: &StructureSpawn, memory: &RoomMemory, residents: &Vec<CreepMemory>) -> (turn:
    SpawnTurn)
    ensures
        spawn_turn_fits(*memory, residents@, turn),
{
    let census = take_census(residents);
    match first_shortfall(&census, &memory.wanted_creeps) {
        None => SpawnTurn { wanted: None, created: None },
        Some(role) => {
            let created = match spawn_creep(spawn, role) {
                Ok(creep) => Some(creep),
                Err(_) => None,
            };
            SpawnTurn { wanted: Some(role), created }
        },
    }
}

/// One tick: every creep takes its turn, in order, and then the population
/// controller runs at every spawn, in order. The report holds one entry for
/// each creep and one for each spawn, at the same index.
pub fn game_loop(creeps: &Vec<CreepEntry>, spawns: &Vec<SpawnEntry>) -> (report: TickReport)
    ensures
        report.creeps@.len() == creeps@.len(),
        forall|i: int|
            0 <= i < creeps@.len() ==> creep_report_fits(
                creeps@[i].memory,
                #[trigger] report.creeps@[i],
            ),
        report.spawns@.len() == spawns@.len(),
        forall|j: int|
            0 <= j < spawns@.len() ==> spawn_turn_fits(
                spawns@[j].memory,
                spawns@[j].residents@,
                #[trigger] report.spawns@[j],
            ),
{
    let mut creep_reports: Vec<CreepReport> = Vec::new();
    let mut i: usize = 0;
    while i < creeps.len()
        invariant
            i <= creeps.len(),
            creep_reports@.len() == i,
            forall|k: int|
                0 <= k < i ==> creep_report_fits(creeps@[k].memory, #[trigger] creep_reports@[k]),
        decreases creeps.len() - i,
    {
        let entry = &creeps[i];
        let report = run_creep(&entry.creep, &entry.room, entry.memory);
        creep_reports.push(report);
        i = i + 1;
    }
    let mut spawn_turns: Vec<SpawnTurn> = Vec::new();
    let mut j: usize = 0;
    while j < spawns.len()
        invariant
            j <= spawns.len(),
            spawn_turns@.len() == j,
            forall|k: int|
                0 <= k < j ==> spawn_turn_fits(
                    spawns@[k].memory,
                    spawns@[k].residents@,
                    #[trigger] spawn_turns@[k],
                ),
        decreases spawns.len() - j,
    {
        let entry = &spawns[j];
        let turn = run_spawn(&entry.spawn, &entry.memory, &entry.residents);
        spawn_turns.push(turn);
        j = j + 1;
    }
    TickReport { creeps: creep_reports, spawns: spawn_turns }
}

} // verus!
