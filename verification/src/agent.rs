//! The worker state machine: how a creep's record and its surroundings decide
//! what the creep does in one tick.

use vstd::prelude::*;
use crate::memory::{CreepMemory, Roles, Tasks};

verus! {

/// The energy a creep carries and the most it can carry.
#[derive(Clone, Copy, Debug, PartialEq, Eq, Structural)]
pub struct Load {
    pub used: u32,
    pub capacity: u32,
}

/// What the world told about one creep during its turn. An answer that the
/// turn had no use for is reported as `false` or `None`.
#[derive(Clone, Copy, Debug, PartialEq, Eq, Structural)]
pub struct Answers {
    /// The creep's energy load.
    pub load: Load,
    /// An active source can be reached.
    pub source: bool,
    /// The free energy capacity of the nearest own spawn that can be reached.
    pub spawn_free: Option<i32>,
    /// The creep's room has a controller.
    pub controller: bool,
    /// The world accepted the deed that was tried.
    pub accepted: bool,
    /// The world accepted the move toward the target of a refused deed.
    pub moved: bool,
}

/// What a creep tries on its target.
#[derive(Clone, Copy, Debug, PartialEq, Eq, Structural)]
pub enum Deed {
    /// Harvest the source that was found.
    Harvest,
    /// Hand energy to the spawn that was found.
    Transfer { amount: u32 },
    /// Invest energy in the room's controller.
    Upgrade,
}

/// The outcome of one creep's turn.
#[derive(Clone, Copy, Debug, PartialEq, Eq, Structural)]
pub struct Turn {
    /// The record to write back, or `None` where the store is left untouched.
    pub record: Option<CreepMemory>,
    /// The deed that was tried, if a target for one was found.
    pub deed: Option<Deed>,
    /// The world accepted the deed.
    pub accepted: bool,
    /// Whether the world accepted the move toward the target; `None` where no
    /// move was asked for.
    pub moved: Option<bool>,
}

/// Why a creep's turn was abandoned.
#[derive(Clone, Copy, Debug, PartialEq, Eq, Structural)]
pub enum TurnError {
    /// The record holds a task that its role cannot act on.
    TaskOutsideRole { role: Roles, task: Tasks },
}

/// The task a harvester holds once its load is taken into account: an empty
/// harvester harvests, a full one delivers, and one in between goes on with
/// what it was doing, starting with a harvest if it had no task yet. `None`
/// where that leaves a task that no harvester can carry out.
pub open spec fn harvester_task(task: Tasks, load: Load) -> Option<Tasks> {
    if load.used == 0 {
        Some(Tasks::Harvest)
    } else if load.used == load.capacity {
        Some(Tasks::Deliver)
    } else {
        match task {
            Tasks::Harvest => Some(Tasks::Harvest),
            Tasks::Deliver => Some(Tasks::Deliver),
            Tasks::Unset => Some(Tasks::Harvest),
            Tasks::Patrol => None,
        }
    }
}

/// The record of a creep after the load rule of its role: a harvester's task
/// follows `harvester_task`, every other record stays as it is.
pub open spec fn settled(memory: CreepMemory, load: Load) -> Result<CreepMemory, TurnError> {
    match memory.role {
        Roles::Harvester => match harvester_task(memory.task, load) {
            Some(task) => Ok(CreepMemory { role: Roles::Harvester, task }),
            None => Err(TurnError::TaskOutsideRole { role: memory.role, task: memory.task }),
        },
        _ => Ok(memory),
    }
}

/// A spawn takes energy when it has room for some.
pub open spec fn receiving(spawn_free: Option<i32>) -> bool {
    spawn_free matches Some(free) && free > 0
}

/// The deed that a settled record calls for in the given surroundings.
/// A harvesting creep harvests the source if there is one. A delivering creep
/// hands all it carries to a receiving spawn, or else upgrades the controller
/// if the room has one. Nothing else is ever tried.
pub open spec fn deed_of(record: CreepMemory, answers: Answers) -> Option<Deed> {
    match (record.role, record.task) {
        (Roles::Harvester, Tasks::Harvest) => if answers.source {
            Some(Deed::Harvest)
        } else {
            None
        },
        (Roles::Harvester, Tasks::Deliver) => if receiving(answers.spawn_free) {
            Some(Deed::Transfer { amount: answers.load.used })
        } else if answers.controller {
            Some(Deed::Upgrade)
        } else {
            None
        },
        _ => None,
    }
}

/// One creep's whole turn. The record is settled first; a record that cannot
/// be settled ends the turn with nothing done and nothing written. Otherwise
/// the deed is tried, a refused deed is followed by a move toward its target,
/// and the settled record is written back, unless the creep is idle, whose
/// record is never written.
pub open spec fn turn_of(memory: CreepMemory, answers: Answers) -> Result<Turn, TurnError> {
    match settled(memory, answers.load) {
        Err(e) => Err(e),
        Ok(record) => {
            let deed = deed_of(record, answers);
            Ok(
                Turn {
                    record: if memory.role == Roles::Idle {
                        None
                    } else {
                        Some(record)
                    },
                    deed,
                    accepted: deed is Some && answers.accepted,
                    moved: if deed is Some && !answers.accepted {
                        Some(answers.moved)
                    } else {
                        None
                    },
                },
            )
        },
    }
}

/// The answers of a turn in which the world was asked nothing it did not have
/// to be asked. Only a harvester asks at all. It asks for a source only
/// when it harvests, for a spawn only when it delivers, and for the
/// controller only when no spawn takes its energy; no verdict is reported
/// where no deed was tried, and no move where the deed was accepted.
pub open spec fn sparing(memory: CreepMemory, answers: Answers) -> bool {
    match settled(memory, answers.load) {
        Ok(record) if memory.role == Roles::Harvester => {
            &&& record.task == Tasks::Harvest ==> answers.spawn_free is None && !answers.controller
            &&& record.task == Tasks::Deliver ==> !answers.source
            &&& receiving(answers.spawn_free) ==> !answers.controller
            &&& deed_of(record, answers) is None ==> !answers.accepted
            &&& deed_of(record, answers) is None || answers.accepted ==> !answers.moved
        },
        Ok(_) => answers == (Answers {
            load: Load { used: 0, capacity: 0 },
            source: false,
            spawn_free: None,
            controller: false,
            accepted: false,
            moved: false,
        }),
        Err(_) => answers == (Answers {
            load: answers.load,
            source: false,
            spawn_free: None,
            controller: false,
            accepted: false,
            moved: false,
        }),
    }
}

/// Applies the load rule to a record.
pub fn settle(memory: CreepMemory, load: Load) -> (r: Result<CreepMemory, TurnError>)
    ensures
        r == settled(memory, load),
{
    match memory.role {
        Roles::Harvester => {
            let task = if load.used == 0 {
                Tasks::Harvest
            } else if load.used == load.capacity {
                Tasks::Deliver
            } else {
                match memory.task {
                    Tasks::Harvest => Tasks::Harvest,
                    Tasks::Deliver => Tasks::Deliver,
                    Tasks::Unset => Tasks::Harvest,
                    Tasks::Patrol => {
                        return Err(
                            TurnError::TaskOutsideRole { role: memory.role, task: memory.task },
                        );
                    },
                }
            };
            Ok(CreepMemory { role: Roles::Harvester, task })
        },
        _ => Ok(memory),
    }
}

/// Tells whether a spawn with this much free capacity takes energy.
pub fn is_receiving(spawn_free: Option<i32>) -> (r: bool)
    ensures
        r == receiving(spawn_free),
{
    match spawn_free {
        Some(free) => free > 0,
        None => false,
    }
}

/// Chooses the deed of a settled record.
pub fn choose_deed(record: CreepMemory, answers: Answers) -> (deed: Option<Deed>)
    ensures
        deed == deed_of(record, answers),
{
    match (record.role, record.task) {
        (Roles::Harvester, Tasks::Harvest) => {
            if answers.source {
                Some(Deed::Harvest)
            } else {
                None
            }
        },
        (Roles::Harvester, Tasks::Deliver) => {
            if is_receiving(answers.spawn_free) {
                Some(Deed::Transfer { amount: answers.load.used })
            } else if answers.controller {
                Some(Deed::Upgrade)
            } else {
                None
            }
        },
        _ => None,
    }
}

/// Works out a creep's turn from its record and from what the world answers.
pub fn plan_turn(memory: CreepMemory, answers: Answers) -> (r: Result<Turn, TurnError>)
    ensures
        r == turn_of(memory, answers),
{
    match settle(memory, answers.load) {
        Err(e) => Err(e),
        Ok(record) => {
            let deed = choose_deed(record, answers);
            let tried = deed.is_some();
            let idle = match memory.role {
                Roles::Idle => true,
                _ => false,
            };
            Ok(
                Turn {
                    record: if idle {
                        None
                    } else {
                        Some(record)
                    },
                    deed,
                    accepted: tried && answers.accepted,
                    moved: if tried && !answers.accepted {
                        Some(answers.moved)
                    } else {
                        None
                    },
                },
            )
        },
    }
}

/// A harvester that carries nothing ends its turn with the task to harvest
/// written back, whatever its task was and whatever the world answers.
pub proof fn law_empty_harvester_harvests(memory: CreepMemory, answers: Answers)
    requires
        memory.role == Roles::Harvester,
        answers.load.used == 0,
    ensures
        turn_of(memory, answers) matches Ok(turn) && turn.record == Some(
            CreepMemory { role: Roles::Harvester, task: Tasks::Harvest },
        ),
{
}

/// A harvester that carries as much as it can, and more than nothing, ends
/// its turn with the task to deliver written back.
pub proof fn law_full_harvester_delivers(memory: CreepMemory, answers: Answers)
    requires
        memory.role == Roles::Harvester,
        answers.load.used != 0,
        answers.load.used == answers.load.capacity,
    ensures
        turn_of(memory, answers) matches Ok(turn) && turn.record == Some(
            CreepMemory { role: Roles::Harvester, task: Tasks::Deliver },
        ),
{
}

/// A harvester with a partial load that was harvesting or delivering goes on
/// with the same task: its record is written back as it was.
pub proof fn law_partial_harvester_keeps_task(memory: CreepMemory, answers: Answers)
    requires
        memory.role == Roles::Harvester,
        memory.task == Tasks::Harvest || memory.task == Tasks::Deliver,
        answers.load.used != 0,
        answers.load.used != answers.load.capacity,
    ensures
        turn_of(memory, answers) matches Ok(turn) && turn.record == Some(memory),
{
}

/// A turn is abandoned only for a harvester with a partial load whose record
/// says to patrol, and for every such harvester.
pub proof fn law_turn_fails_only_on_patrolling_harvester(memory: CreepMemory, answers: Answers)
    ensures
        turn_of(memory, answers) is Err <==> memory.role == Roles::Harvester && memory.task
            == Tasks::Patrol && answers.load.used != 0 && answers.load.used
            != answers.load.capacity,
        turn_of(memory, answers) matches Err(e) ==> e == (TurnError::TaskOutsideRole {
            role: memory.role,
            task: memory.task,
        }),
{
}

/// A record whose task fits its role is always settled, and the settled
/// record's task fits its role too. A settled harvester harvests or delivers.
pub proof fn law_settling_keeps_records_well_formed(memory: CreepMemory, load: Load)
    requires
        memory.well_formed(),
    ensures
        settled(memory, load) matches Ok(record) && record.well_formed() && record.role
            == memory.role && (record.role == Roles::Harvester ==> record.task == Tasks::Harvest
            || record.task == Tasks::Deliver),
{
}

/// A turn never changes a creep's role: the record that is written back
/// holds the role that was read.
pub proof fn law_role_is_kept(memory: CreepMemory, answers: Answers)
    ensures
        turn_of(memory, answers) matches Ok(turn) ==> (turn.record matches Some(record)
            ==> record.role == memory.role),
        turn_of(memory, answers) matches Ok(turn) ==> (turn.record is None <==> memory.role
            == Roles::Idle),
{
}

/// In one turn the world accepts at most one call that changes it: a move is
/// asked for only after a deed was refused, and nothing is asked for where no
/// deed was tried.
pub proof fn law_at_most_one_accepted_call(memory: CreepMemory, answers: Answers)
    ensures
        turn_of(memory, answers) matches Ok(turn) ==> {
            &&& turn.accepted ==> turn.deed is Some && turn.moved is None
            &&& turn.moved is Some ==> turn.deed is Some && !turn.accepted
            &&& turn.deed is None ==> !turn.accepted && turn.moved is None
        },
{
}

/// Only a harvester ever tries a deed. A fighter's record is written back as
/// it is, and an idle creep's record is not written at all.
pub proof fn law_only_harvesters_act(memory: CreepMemory, answers: Answers)
    requires
        memory.role != Roles::Harvester,
    ensures
        turn_of(memory, answers) == Ok::<Turn, TurnError>(
            Turn {
                record: if memory.role == Roles::Idle {
                    None
                } else {
                    Some(memory)
                },
                deed: None,
                accepted: false,
                moved: None,
            },
        ),
{
}

} // verus!
