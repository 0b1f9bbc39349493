//! The game world as the engine sees it: the objects it is handed and the
//! calls it makes on them. Nothing in this file is proved. Each function
//! makes one call into the game interface or the name generator, and since
//! the answer depends on the state of the world, or on chance, no function
//! here promises anything about it. The proofs of the engine hold whatever
//! these calls answer.

use vstd::prelude::*;
use fake::faker::name::raw::Name;
use fake::locales::EN;
use fake::Fake;
use screeps::constants::find::{MY_SPAWNS, SOURCES_ACTIVE};
use screeps::constants::{ErrorCode, ResourceType};
use screeps::objects::{Creep, Room, Source, StructureController, StructureSpawn};
use screeps::traits::{HasPosition, SharedCreepProperties};
use crate::population::Part;

verus! {

/// The game's `Creep`. The proofs see nothing inside it.
#[verifier::external_type_specification]
#[verifier::external_body]
pub struct ExCreep(Creep);

/// The game's `Room`. The proofs see nothing inside it.
#[verifier::external_type_specification]
#[verifier::external_body]
pub struct ExRoom(Room);

/// The game's `Source`. The proofs see nothing inside it.
#[verifier::external_type_specification]
#[verifier::external_body]
pub struct ExSource(Source);

/// The game's `StructureSpawn`. The proofs see nothing inside it.
#[verifier::external_type_specification]
#[verifier::external_body]
pub struct ExStructureSpawn(StructureSpawn);

/// The game's `StructureController`. The proofs see nothing inside it.
#[verifier::external_type_specification]
#[verifier::external_body]
pub struct ExStructureController(StructureController);

/// The game's `ErrorCode`, the reason for which a call was refused. The
/// proofs see nothing inside it.
#[verifier::external_type_specification]
#[verifier::external_body]
pub struct ExErrorCode(ErrorCode);

/// Something a creep can walk toward.
pub enum Target {
    Source(Source),
    Spawn(StructureSpawn),
    Controller(StructureController),
}

/// Calls `Store::get_used_capacity` on the creep's store, for energy: the
/// amount of energy the creep carries. Nothing is claimed of the amount.
#[verifier::external_body]
pub(crate) fn carried_energy(creep: &Creep) -> (used: u32) {
    creep.store().get_used_capacity(Some(ResourceType::Energy))
}

/// Calls `Store::get_capacity` on the creep's store, for energy: the most
/// energy the creep can carry. Nothing is claimed of the amount.
#[verifier::external_body]
pub(crate) fn energy_capacity(creep: &Creep) -> (capacity: u32) {
    creep.store().get_capacity(Some(ResourceType::Energy))
}

/// Calls `Position::find_closest_by_path` from the creep's position with
/// `find::SOURCES_ACTIVE`: the nearest active source that a path leads to.
/// Nothing is claimed of whether one is found, nor of which.
#[verifier::external_body]
pub(crate) fn nearest_active_source(creep: &Creep) -> (found: Option<Source>) {
    creep.pos().find_closest_by_path(SOURCES_ACTIVE, None)
}

/// Calls `Position::find_closest_by_path` from the creep's position with
/// `find::MY_SPAWNS`: the nearest own spawn that a path leads to. Nothing is
/// claimed of whether one is found, nor of which.
#[verifier::external_body]
pub(crate) fn nearest_own_spawn(creep: &Creep) -> (found: Option<StructureSpawn>) {
    creep.pos().find_closest_by_path(MY_SPAWNS, None)
}

/// Calls `Store::get_free_capacity` on the spawn's store, for energy.
/// Nothing is claimed of the amount, not even its sign.
#[verifier::external_body]
pub(crate) fn free_energy_capacity(spawn: &StructureSpawn) -> (free: i32) {
    spawn.store().get_free_capacity(Some(ResourceType::Energy))
}

/// Calls `Room::controller`. Nothing is claimed of whether the room has a
/// controller.
#[verifier::external_body]
pub(crate) fn room_controller(room: &Room) -> (found: Option<StructureController>) {
    room.controller()
}

/// Calls `Creep::harvest` on the source and hands back the game's verdict.
/// Nothing is claimed of the verdict.
#[verifier::external_body]
pub(crate) fn harvest(creep: &Creep, source: &Source) -> (verdict: Result<(), ErrorCode>) {
    creep.harvest(source)
}

/// Calls `SharedCreepProperties::transfer` to hand `amount` units of energy to the spawn, and
/// hands back the game's verdict. Nothing is claimed of the verdict.
#[verifier::external_body]
pub(crate) fn transfer_energy(creep: &Creep, spawn: &StructureSpawn, amount: u32) -> (verdict:
    Result<(), ErrorCode>) {
    creep.transfer(spawn, ResourceType::Energy, Some(amount))
}

/// Calls `Creep::upgrade_controller` and hands back the game's verdict.
/// Nothing is claimed of the verdict.
#[verifier::external_body]
pub(crate) fn upgrade(creep: &Creep, controller: &StructureController) -> (verdict: Result<
    (),
    ErrorCode,
>) {
    creep.upgrade_controller(controller)
}

/// Calls `SharedCreepProperties::move_to` with the target and hands back the game's verdict.
/// Nothing is claimed of the verdict.
#[verifier::external_body]
pub(crate) fn approach(creep: &Creep, target: &Target) -> (verdict: Result<(), ErrorCode>) {
    match target {
        Target::Source(source) => creep.move_to(source),
        Target::Spawn(spawn) => creep.move_to(spawn),
        Target::Controller(controller) => creep.move_to(controller),
    }
}

/// Calls `Fake::fake` on `Name(EN)`: a full name in English, drawn at random.
/// Nothing is claimed of the name, not even that it is new.
#[verifier::external_body]
pub(crate) fn fresh_name() -> (name: String) {
    Name(EN).fake()
}

/// Calls `StructureSpawn::spawn_creep` with the body, each part given as the
/// game's part of the same name, and with the name, and hands back the game's
/// verdict. Nothing is claimed of the verdict.
#[verifier::external_body]
pub(crate) fn request_creep(spawn: &StructureSpawn, body: &Vec<Part>, name: &str) -> (verdict:
    Result<(), ErrorCode>) {
    let parts: Vec<screeps::constants::Part> = body.iter().map(
        |part| match part {
            Part::Work => screeps::constants::Part::Work,
            Part::Move => screeps::constants::Part::Move,
            Part::Carry => screeps::constants::Part::Carry,
            Part::RangedAttack => screeps::constants::Part::RangedAttack,
        },
    ).collect();
    spawn.spawn_creep(&parts, name)
}

} // verus!
