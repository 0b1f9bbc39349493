//! The population controller: which creep, if any, a room should get next,
//! what it is built from and what record it starts with.

use vstd::prelude::*;
use vstd::multiset::Multiset;
use vstd::seq_lib::to_multiset_build;
use crate::memory::{CreepCounts, CreepMemory, Roles, Tasks};

verus! {

/// A capability that a creep's body can be built from.
#[derive(Clone, Copy, Debug, PartialEq, Eq, Structural)]
pub enum Part {
    Work,
    Move,
    Carry,
    RangedAttack,
}

/// The live creeps of a room, counted by role. Creeps of a role that has no
/// target are not counted.
#[derive(Clone, Copy, Debug, PartialEq, Eq, Structural)]
pub struct Census {
    pub harvesters: usize,
    pub fighters: usize,
}

/// A creep that a spawn has agreed to create: its name and the record that
/// it starts with.
#[derive(Debug, PartialEq, Eq)]
pub struct Spawned {
    pub name: String,
    pub memory: CreepMemory,
}

/// Why a spawn did not create a creep.
#[derive(Clone, Copy, Debug, PartialEq, Eq, Structural)]
pub enum SpawnError {
    /// The spawn lacks what the creep would cost. Every refusal is reported
    /// as this one.
    NotEnough,
}

/// What the population controller did at one spawn.
#[derive(Debug, PartialEq, Eq)]
pub struct SpawnTurn {
    /// The role that a creep was asked for, or `None` where no role is short.
    pub wanted: Option<Roles>,
    /// The creep that the spawn agreed to create, or `None` where nothing was
    /// asked for or the spawn refused.
    pub created: Option<Spawned>,
}

impl SpawnTurn {
    /// The number of creation requests made in this turn.
    pub open spec fn requests(self) -> nat {
        if self.wanted is Some {
            1
        } else {
            0
        }
    }
}

/// The number of records that hold the given role.
pub open spec fn head_count(records: Seq<CreepMemory>, role: Roles) -> nat {
    records.filter(|memory: CreepMemory| memory.role == role).len()
}

/// The census of the creeps that these records belong to.
pub open spec fn census_of(records: Seq<CreepMemory>) -> Census {
    Census {
        harvesters: head_count(records, Roles::Harvester) as usize,
        fighters: head_count(records, Roles::Fighter) as usize,
    }
}

/// The role to create next: the first of harvester and fighter, in that
/// order, of which fewer creeps live than are wanted.
pub open spec fn shortfall(census: Census, wanted: CreepCounts) -> Option<Roles> {
    if census.harvesters < wanted.harvester {
        Some(Roles::Harvester)
    } else if census.fighters < wanted.fighter {
        Some(Roles::Fighter)
    } else {
        None
    }
}

/// The record a creep of the given role starts with.
pub open spec fn starting_memory(role: Roles) -> CreepMemory {
    CreepMemory {
        role,
        task: match role {
            Roles::Harvester => Tasks::Harvest,
            Roles::Fighter => Tasks::Patrol,
            Roles::Idle => Tasks::Unset,
        },
    }
}

/// The body of a creep of the given role, part by part. A fighter is built
/// to move and to shoot; every other creep is built to work and to carry.
pub open spec fn body_of(role: Roles) -> Seq<Part> {
    match role {
        Roles::Fighter => seq![Part::Move, Part::Move, Part::Move, Part::RangedAttack],
        _ => seq![Part::Work, Part::Move, Part::Carry, Part::Move, Part::Carry],
    }
}

/// Adding a record to the end raises the count of its role by one and leaves
/// every other count as it was.
proof fn lemma_head_count_push(records: Seq<CreepMemory>, memory: CreepMemory, role: Roles)
    ensures
        head_count(records.push(memory), role) == head_count(records, role) + (if memory.role
            == role {
            1nat
        } else {
            0nat
        }),
{
    reveal(Seq::filter);
    assert(records.push(memory).drop_last() =~= records);
}

/// No role is held by more records than there are.
proof fn lemma_head_count_bound(records: Seq<CreepMemory>, role: Roles)
    ensures
        head_count(records, role) <= records.len(),
{
    records.lemma_filter_len(|memory: CreepMemory| memory.role == role);
}

/// How often a role occurs in a collection of records, task by task.
spec fn tally(records: Multiset<CreepMemory>, role: Roles) -> nat {
    records.count(CreepMemory { role, task: Tasks::Harvest }) + records.count(
        CreepMemory { role, task: Tasks::Deliver },
    ) + records.count(CreepMemory { role, task: Tasks::Patrol }) + records.count(
        CreepMemory { role, task: Tasks::Unset },
    )
}

/// The count of a role does not depend on the order of the records.
proof fn lemma_head_count_is_tally(records: Seq<CreepMemory>, role: Roles)
    ensures
        head_count(records, role) == tally(records.to_multiset(), role),
    decreases records.len(),
{
    if records.len() == 0 {
        reveal(Seq::filter);
        records.to_multiset_ensures();
    } else {
        let front = records.drop_last();
        let last = records.last();
        assert(records =~= front.push(last));
        lemma_head_count_is_tally(front, role);
        lemma_head_count_push(front, last, role);
        to_multiset_build(front, last);
    }
}

/// Counts the creeps of each counted role.
pub fn take_census(records: &Vec<CreepMemory>) -> (census: Census)
    ensures
        census == census_of(records@),
        census.harvesters == head_count(records@, Roles::Harvester),
        census.fighters == head_count(records@, Roles::Fighter),
{
    let mut harvesters: usize = 0;
    let mut fighters: usize = 0;
    let mut i: usize = 0;
    while i < records.len()
        invariant
            i <= records.len(),
            harvesters == head_count(records@.take(i as int), Roles::Harvester),
            fighters == head_count(records@.take(i as int), Roles::Fighter),
        decreases records.len() - i,
    {
        proof {
            let seen = records@.take(i as int);
            assert(records@.take(i + 1) =~= seen.push(records@[i as int]));
            lemma_head_count_push(seen, records@[i as int], Roles::Harvester);
            lemma_head_count_push(seen, records@[i as int], Roles::Fighter);
            lemma_head_count_bound(records@.take(i + 1), Roles::Harvester);
            lemma_head_count_bound(records@.take(i + 1), Roles::Fighter);
        }
        match records[i].role {
            Roles::Harvester => {
                harvesters = harvesters + 1;
            },
            Roles::Fighter => {
                fighters = fighters + 1;
            },
            Roles::Idle => {},
        }
        i = i + 1;
    }
    assert(records@.take(i as int) =~= records@);
    Census { harvesters, fighters }
}

/// Compares the census with the targets and names the role to create, if any.
pub fn first_shortfall(census: &Census, wanted: &CreepCounts) -> (role: Option<Roles>)
    ensures
        role == shortfall(*census, *wanted),
{
    if census.harvesters < wanted.harvester as usize {
        Some(Roles::Harvester)
    } else if census.fighters < wanted.fighter as usize {
        Some(Roles::Fighter)
    } else {
        None
    }
}

/// Makes the record that a creep of the given role starts with.
pub fn starting_record(role: Roles) -> (memory: CreepMemory)
    ensures
        memory == starting_memory(role),
{
    let task = match role {
        Roles::Harvester => Tasks::Harvest,
        Roles::Fighter => Tasks::Patrol,
        Roles::Idle => Tasks::Unset,
    };
    CreepMemory { role, task }
}

/// Builds the body of a creep of the given role.
pub fn body_for(role: Roles) -> (body: Vec<Part>)
    ensures
        body@ == body_of(role),
{
    match role {
        Roles::Fighter => vec![Part::Move, Part::Move, Part::Move, Part::RangedAttack],
        _ => vec![Part::Work, Part::Move, Part::Carry, Part::Move, Part::Carry],
    }
}

/// Sums up a creation request once the spawn has answered: a creep with its
/// starting record where the spawn agreed, `NotEnough` where it refused.
pub fn conclude_spawn(role: Roles, name: String, agreed: bool) -> (r: Result<Spawned, SpawnError>)
    ensures
        agreed ==> r == Ok::<Spawned, SpawnError>(
            Spawned { name, memory: starting_memory(role) },
        ),
        !agreed ==> r == Err::<Spawned, SpawnError>(SpawnError::NotEnough),
{
    if agreed {
        Ok(Spawned { name, memory: starting_record(role) })
    } else {
        Err(SpawnError::NotEnough)
    }
}

/// The comparison depends on nothing but the records and the targets: made
/// again on the same records and targets, as after a request that the spawn
/// refused, it names the same role.
pub proof fn law_comparison_repeats(
    residents: Seq<CreepMemory>,
    wanted: CreepCounts,
    first: SpawnTurn,
    second: SpawnTurn,
)
    requires
        first.wanted == shortfall(census_of(residents), wanted),
        second.wanted == shortfall(census_of(residents), wanted),
    ensures
        first.wanted == second.wanted,
        first.requests() == second.requests(),
{
}

/// The comparison looks at how many creeps hold each role and at nothing
/// else: the same records in another order give the same census, and so the
/// same role to create.
pub proof fn law_comparison_ignores_order(
    first: Seq<CreepMemory>,
    second: Seq<CreepMemory>,
    wanted: CreepCounts,
)
    requires
        first.to_multiset() == second.to_multiset(),
    ensures
        census_of(first) == census_of(second),
        shortfall(census_of(first), wanted) == shortfall(census_of(second), wanted),
{
    lemma_head_count_is_tally(first, Roles::Harvester);
    lemma_head_count_is_tally(second, Roles::Harvester);
    lemma_head_count_is_tally(first, Roles::Fighter);
    lemma_head_count_is_tally(second, Roles::Fighter);
}

/// At one spawn and in one tick a creep is asked for once at most, and
/// exactly once where a counted role is short. Harvesters come first: a
/// fighter is asked for only where no harvester is missing.
pub proof fn law_one_request_at_most(census: Census, wanted: CreepCounts, turn: SpawnTurn)
    requires
        turn.wanted == shortfall(census, wanted),
    ensures
        turn.requests() <= 1,
        turn.requests() == 1 <==> census.harvesters < wanted.harvester || census.fighters
            < wanted.fighter,
        turn.wanted == Some(Roles::Harvester) <==> census.harvesters < wanted.harvester,
        turn.wanted == Some(Roles::Fighter) <==> census.harvesters >= wanted.harvester
            && census.fighters < wanted.fighter,
        turn.wanted != Some(Roles::Idle),
{
}

/// The record that a new creep starts with holds a task that fits its role,
/// and never the task of a record that was not set.
pub proof fn law_starting_record_well_formed(role: Roles)
    ensures
        starting_memory(role).well_formed(),
        starting_memory(role).role == role,
        role != Roles::Idle ==> starting_memory(role).task != Tasks::Unset,
{
}

} // verus!
