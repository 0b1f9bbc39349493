//! The records that survive between ticks, one per creep and one per room,
//! and the form in which they are stored: roles and tasks by name, targets
//! as numbers, and a default for every field that a stored record lacks.

use vstd::prelude::*;
use vstd::string::StringExecFns;
use crate::text::same_text;

verus! {

/// What a creep is for. Assigned when the creep is created and never changed.
#[derive(Clone, Copy, Debug, PartialEq, Eq, Structural)]
pub enum Roles {
    Harvester,
    Fighter,
    Idle,
}

/// What a creep is currently doing. `Unset` is the value of a record whose
/// task was never set; it is stored under the name `None`.
#[derive(Clone, Copy, Debug, PartialEq, Eq, Structural)]
pub enum Tasks {
    Harvest,
    Deliver,
    Patrol,
    Unset,
}

/// The record kept for one creep.
#[derive(Clone, Copy, Debug, PartialEq, Eq, Structural)]
pub struct CreepMemory {
    pub role: Roles,
    pub task: Tasks,
}

/// How many creeps of each counted role a room should hold.
#[derive(Clone, Copy, Debug, PartialEq, Eq, Structural)]
pub struct CreepCounts {
    pub harvester: u8,
    pub fighter: u8,
}

/// The record kept for one room.
#[derive(Clone, Copy, Debug, PartialEq, Eq, Structural)]
pub struct RoomMemory {
    pub wanted_creeps: CreepCounts,
}

impl Default for Roles {
    fn default() -> (role: Roles)
        ensures
            role == Roles::Idle,
    {
        Roles::Idle
    }
}

impl Default for Tasks {
    fn default() -> (task: Tasks)
        ensures
            task == Tasks::Unset,
    {
        Tasks::Unset
    }
}

impl Default for CreepMemory {
    fn default() -> (memory: CreepMemory)
        ensures
            memory == (CreepMemory { role: Roles::Idle, task: Tasks::Unset }),
    {
        CreepMemory { role: Roles::Idle, task: Tasks::Unset }
    }
}

impl Default for CreepCounts {
    fn default() -> (counts: CreepCounts)
        ensures
            counts == (CreepCounts { harvester: 0, fighter: 0 }),
    {
        CreepCounts { harvester: 0, fighter: 0 }
    }
}

impl Default for RoomMemory {
    fn default() -> (memory: RoomMemory)
        ensures
            memory == (RoomMemory { wanted_creeps: CreepCounts { harvester: 0, fighter: 0 } }),
    {
        RoomMemory { wanted_creeps: CreepCounts { harvester: 0, fighter: 0 } }
    }
}

/// Why a stored record could not be read.
#[derive(Clone, Copy, Debug, PartialEq, Eq, Structural)]
pub enum DecodeError {
    /// The stored role is not the name of a role.
    UnknownRole,
    /// The stored task is not the name of a task.
    UnknownTask,
}

/// The name under which a role is stored.
pub open spec fn role_name(role: Roles) -> Seq<char> {
    match role {
        Roles::Harvester => "Harvester"@,
        Roles::Fighter => "Fighter"@,
        Roles::Idle => "Idle"@,
    }
}

/// The role that a stored name stands for.
pub open spec fn role_named(name: Seq<char>) -> Option<Roles> {
    if name == "Harvester"@ {
        Some(Roles::Harvester)
    } else if name == "Fighter"@ {
        Some(Roles::Fighter)
    } else if name == "Idle"@ {
        Some(Roles::Idle)
    } else {
        None
    }
}

/// The name under which a task is stored.
pub open spec fn task_name(task: Tasks) -> Seq<char> {
    match task {
        Tasks::Harvest => "Harvest"@,
        Tasks::Deliver => "Deliver"@,
        Tasks::Patrol => "Patrol"@,
        Tasks::Unset => "None"@,
    }
}

/// The task that a stored name stands for.
pub open spec fn task_named(name: Seq<char>) -> Option<Tasks> {
    if name == "Harvest"@ {
        Some(Tasks::Harvest)
    } else if name == "Deliver"@ {
        Some(Tasks::Deliver)
    } else if name == "Patrol"@ {
        Some(Tasks::Patrol)
    } else if name == "None"@ {
        Some(Tasks::Unset)
    } else {
        None
    }
}

/// The role whose target an operator means by a name: `harvester` or
/// `fighter`. No other role has a target.
pub open spec fn counted_role_named(name: Seq<char>) -> Option<Roles> {
    if name == "harvester"@ {
        Some(Roles::Harvester)
    } else if name == "fighter"@ {
        Some(Roles::Fighter)
    } else {
        None
    }
}

/// The targets with the target of one role replaced. An idle creep has no
/// target, so none changes for it.
pub open spec fn with_target(counts: CreepCounts, role: Roles, count: u8) -> CreepCounts {
    match role {
        Roles::Harvester => CreepCounts { harvester: count, fighter: counts.fighter },
        Roles::Fighter => CreepCounts { harvester: counts.harvester, fighter: count },
        Roles::Idle => counts,
    }
}

/// The tasks that a role can hold. A harvester harvests or delivers, or has
/// no task yet; a fighter patrols; an idle creep has no task.
pub open spec fn task_fits(role: Roles, task: Tasks) -> bool {
    match role {
        Roles::Harvester => task != Tasks::Patrol,
        Roles::Fighter => task == Tasks::Patrol,
        Roles::Idle => task == Tasks::Unset,
    }
}

/// The creep record that stored fields stand for. A field that is missing
/// takes its default; a field that names nothing is an error, the role's
/// before the task's.
pub open spec fn creep_memory_read(role: Option<Seq<char>>, task: Option<Seq<char>>) -> Result<
    CreepMemory,
    DecodeError,
> {
    let role = match role {
        None => Some(Roles::Idle),
        Some(name) => role_named(name),
    };
    let task = match task {
        None => Some(Tasks::Unset),
        Some(name) => task_named(name),
    };
    match (role, task) {
        (None, _) => Err(DecodeError::UnknownRole),
        (Some(_), None) => Err(DecodeError::UnknownTask),
        (Some(role), Some(task)) => Ok(CreepMemory { role, task }),
    }
}

/// The targets that stored numbers stand for; a missing number is zero.
pub open spec fn creep_counts_read(harvester: Option<u8>, fighter: Option<u8>) -> CreepCounts {
    CreepCounts {
        harvester: match harvester {
            Some(count) => count,
            None => 0,
        },
        fighter: match fighter {
            Some(count) => count,
            None => 0,
        },
    }
}

/// The room record that stored targets stand for; missing targets are all
/// zero.
pub open spec fn room_memory_read(wanted_creeps: Option<CreepCounts>) -> RoomMemory {
    RoomMemory {
        wanted_creeps: match wanted_creeps {
            Some(counts) => counts,
            None => CreepCounts { harvester: 0, fighter: 0 },
        },
    }
}

/// The characters of a text that may be missing.
pub open spec fn text_of(field: Option<&str>) -> Option<Seq<char>> {
    match field {
        Some(text) => Some(text@),
        None => None,
    }
}

impl Roles {
    /// The name under which the role is stored.
    pub fn name(self) -> (name: &'static str)
        ensures
            name@ == role_name(self),
    {
        match self {
            Roles::Harvester => "Harvester",
            Roles::Fighter => "Fighter",
            Roles::Idle => "Idle",
        }
    }

    /// Reads a role from its stored name.
    pub fn from_name(name: &str) -> (role: Option<Roles>)
        ensures
            role == role_named(name@),
    {
        if same_text(name, "Harvester") {
            Some(Roles::Harvester)
        } else if same_text(name, "Fighter") {
            Some(Roles::Fighter)
        } else if same_text(name, "Idle") {
            Some(Roles::Idle)
        } else {
            None
        }
    }
}

impl Tasks {
    /// The name under which the task is stored.
    pub fn name(self) -> (name: &'static str)
        ensures
            name@ == task_name(self),
    {
        match self {
            Tasks::Harvest => "Harvest",
            Tasks::Deliver => "Deliver",
            Tasks::Patrol => "Patrol",
            Tasks::Unset => "None",
        }
    }

    /// Reads a task from its stored name.
    pub fn from_name(name: &str) -> (task: Option<Tasks>)
        ensures
            task == task_named(name@),
    {
        if same_text(name, "Harvest") {
            Some(Tasks::Harvest)
        } else if same_text(name, "Deliver") {
            Some(Tasks::Deliver)
        } else if same_text(name, "Patrol") {
            Some(Tasks::Patrol)
        } else if same_text(name, "None") {
            Some(Tasks::Unset)
        } else {
            None
        }
    }
}

impl CreepMemory {
    /// The task is one that the role can hold.
    pub open spec fn well_formed(self) -> bool {
        task_fits(self.role, self.task)
    }

    /// Tells whether the task is one that the role can hold.
    pub fn is_well_formed(&self) -> (fits: bool)
        ensures
            fits == self.well_formed(),
    {
        match self.role {
            Roles::Harvester => match self.task {
                Tasks::Patrol => false,
                _ => true,
            },
            Roles::Fighter => match self.task {
                Tasks::Patrol => true,
                _ => false,
            },
            Roles::Idle => match self.task {
                Tasks::Unset => true,
                _ => false,
            },
        }
    }

    /// Reads a creep record from its stored fields.
    pub fn decode(role: Option<&str>, task: Option<&str>) -> (r: Result<CreepMemory, DecodeError>)
        ensures
            r == creep_memory_read(text_of(role), text_of(task)),
    {
        let role = match role {
            None => Roles::Idle,
            Some(name) => match Roles::from_name(name) {
                Some(role) => role,
                None => {
                    return Err(DecodeError::UnknownRole);
                },
            },
        };
        let task = match task {
            None => Tasks::Unset,
            Some(name) => match Tasks::from_name(name) {
                Some(task) => task,
                None => {
                    return Err(DecodeError::UnknownTask);
                },
            },
        };
        Ok(CreepMemory { role, task })
    }

    /// The fields under which the record is stored: the role's name, then
    /// the task's.
    pub fn encode(&self) -> (fields: (&'static str, &'static str))
        ensures
            fields.0@ == role_name(self.role),
            fields.1@ == task_name(self.task),
    {
        (self.role.name(), self.task.name())
    }
}

impl CreepCounts {
    /// Reads targets from their stored numbers.
    pub fn decode(harvester: Option<u8>, fighter: Option<u8>) -> (counts: CreepCounts)
        ensures
            counts == creep_counts_read(harvester, fighter),
    {
        CreepCounts {
            harvester: match harvester {
                Some(count) => count,
                None => 0,
            },
            fighter: match fighter {
                Some(count) => count,
                None => 0,
            },
        }
    }

    /// The numbers under which the targets are stored: harvesters, then
    /// fighters.
    pub fn encode(&self) -> (fields: (u8, u8))
        ensures
            fields == (self.harvester, self.fighter),
    {
        (self.harvester, self.fighter)
    }
}

impl RoomMemory {
    /// Reads a room record from its stored targets.
    pub fn decode(wanted_creeps: Option<CreepCounts>) -> (memory: RoomMemory)
        ensures
            memory == room_memory_read(wanted_creeps),
    {
        RoomMemory {
            wanted_creeps: match wanted_creeps {
                Some(counts) => counts,
                None => CreepCounts { harvester: 0, fighter: 0 },
            },
        }
    }
}

/// The names of the roles differ from one another, and so do the names of
/// the tasks: each name stands for the role or task that it was written for.
pub proof fn law_names_read_back(role: Roles, task: Tasks)
    ensures
        role_named(role_name(role)) == Some(role),
        task_named(task_name(task)) == Some(task),
{
    reveal_strlit("Harvester");
    reveal_strlit("Fighter");
    reveal_strlit("Idle");
    reveal_strlit("Harvest");
    reveal_strlit("Deliver");
    reveal_strlit("Patrol");
    reveal_strlit("None");
    assert("Harvester"@.len() == 9 && "Fighter"@.len() == 7 && "Idle"@.len() == 4);
    assert("Harvest"@.len() == 7 && "Patrol"@.len() == 6 && "None"@.len() == 4);
    assert("Harvest"@[0] == 'H' && "Deliver"@[0] == 'D');
}

/// A creep record that is written and read back is the record that was
/// written.
pub proof fn law_creep_memory_round_trip(memory: CreepMemory)
    ensures
        creep_memory_read(Some(role_name(memory.role)), Some(task_name(memory.task))) == Ok::<
            CreepMemory,
            DecodeError,
        >(memory),
{
    law_names_read_back(memory.role, memory.task);
}

/// A room record that is written and read back is the record that was
/// written.
pub proof fn law_room_memory_round_trip(memory: RoomMemory)
    ensures
        room_memory_read(
            Some(
                creep_counts_read(
                    Some(memory.wanted_creeps.harvester),
                    Some(memory.wanted_creeps.fighter),
                ),
            ),
        ) == memory,
{
}

/// The default records are an idle creep with no task and a room with no
/// targets. Each of them is what a stored record without any field reads
/// as, and each reads back as itself once it is written.
pub proof fn law_default_records_round_trip()
    ensures
        creep_memory_read(None, None) == Ok::<CreepMemory, DecodeError>(
            CreepMemory { role: Roles::Idle, task: Tasks::Unset },
        ),
        creep_memory_read(Some(role_name(Roles::Idle)), Some(task_name(Tasks::Unset))) == Ok::<
            CreepMemory,
            DecodeError,
        >(CreepMemory { role: Roles::Idle, task: Tasks::Unset }),
        room_memory_read(None) == (RoomMemory {
            wanted_creeps: CreepCounts { harvester: 0, fighter: 0 },
        }),
        room_memory_read(Some(creep_counts_read(None, None))) == (RoomMemory {
            wanted_creeps: CreepCounts { harvester: 0, fighter: 0 },
        }),
        room_memory_read(Some(creep_counts_read(Some(0), Some(0)))) == (RoomMemory {
            wanted_creeps: CreepCounts { harvester: 0, fighter: 0 },
        }),
        (CreepMemory { role: Roles::Idle, task: Tasks::Unset }).well_formed(),
{
    law_names_read_back(Roles::Idle, Tasks::Unset);
}

/// Sets the number of creeps of one role that a room should hold, and hands
/// back the room's record with that target changed. The role is named as an
/// operator types it, `harvester` or `fighter`; any other name is answered
/// with the message `Invalid role`.
pub fn set_creeps(memory: RoomMemory, role: String, count: u8) -> (r: Result<RoomMemory, String>)
    ensures
        match counted_role_named(role@) {
            Some(counted) => r == Ok::<RoomMemory, String>(
                RoomMemory { wanted_creeps: with_target(memory.wanted_creeps, counted, count) },
            ),
            None => r matches Err(message) && message@ == "Invalid role"@,
        },
{
    let mut memory = memory;
    if same_text(role.as_str(), "harvester") {
        memory.wanted_creeps.harvester = count;
        Ok(memory)
    } else if same_text(role.as_str(), "fighter") {
        memory.wanted_creeps.fighter = count;
        Ok(memory)
    } else {
        Err(String::from_str("Invalid role"))
    }
}

} // verus!
