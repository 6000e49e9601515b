//! The command queue of the entity-component system, as far as this library
//! uses it: what it queues, for which entity, and what reading it back gives.
//!
//! The queue belongs to the engine. Nothing here is proved about it: each
//! function of this module makes one kind of call into the engine and states
//! what the engine's source shows of that call.

use vstd::prelude::*;
use bevy::asset::Handle;
use bevy::ecs::{Commands, Entity};
use bevy::math::Vec2;
use bevy::sprite::entity::SpriteComponents;
use bevy::sprite::{ColorMaterial, Sprite};
use crate::block::{Block, BlockView, Cell};
use crate::position::Position;

verus! {

/// The engine's command queue, opaque here.
#[verifier::external_type_specification]
#[verifier::external_body]
pub struct ExCommands(Commands);

/// The engine's identifier of an entity, opaque here.
#[verifier::external_type_specification]
#[verifier::external_body]
pub struct ExEntity(Entity);

/// One entry of the command queue, by what it does to the world once the
/// queue is applied.
pub enum Entry {
    /// Gives `entity` the components of a sprite that is drawn with
    /// `material` and keeps the size `width` by `height` until it is resized
    /// by hand, every other component as the engine makes it by default.
    Sprite { entity: Entity, material: Handle<ColorMaterial>, width: u16, height: u16 },
    /// Marks `entity` as a cell.
    Cell { entity: Entity },
    /// Puts `entity` at the grid position `pos`.
    Position { entity: Entity, pos: Position },
    /// Gives `entity` the record of a block.
    Block { entity: Entity, block: BlockView },
    /// Any entry that this library does not queue.
    Other,
}

/// Whether the queue has been given the means to reserve new entities.
/// Without it the engine aborts on a spawn.
pub uninterp spec fn reserver_set(commands: Commands) -> bool;

/// The entity that the queue last spawned, to which `with` adds components.
pub uninterp spec fn current_entity(commands: Commands) -> Option<Entity>;

/// The entries waiting in the queue, oldest first.
pub uninterp spec fn queued(commands: Commands) -> Seq<Entry>;

/// Locks the queue (`Commands::commands`) and reads whether its field
/// `entity_reserver` is set.
#[verifier::external_body]
pub(crate) fn has_reserver(commands: &Commands) -> (set: bool)
    ensures
        set == reserver_set(*commands),
{
    commands.commands.lock().entity_reserver.is_some()
}

/// `Commands::current_entity`: the entity of the last spawn, if there was one.
#[verifier::external_body]
pub(crate) fn current(commands: &Commands) -> (entity: Option<Entity>)
    ensures
        entity == current_entity(*commands),
{
    commands.current_entity()
}

/// `Commands::spawn` on `SpriteComponents` with the given material and a
/// `Sprite::new` of the given size, the rest by default: reserves an entity,
/// makes it the current one and queues the components for it. Which entity
/// that is, is the engine's choice. (The engine gives up once all 2^32
/// entity identifiers are taken; as with memory, nothing is said of that.)
#[verifier::external_body]
pub(crate) fn spawn_sprite(
    commands: &mut Commands,
    material: Handle<ColorMaterial>,
    width: u16,
    height: u16,
)
    requires
        reserver_set(*old(commands)),
    ensures
        reserver_set(*final(commands)),
        current_entity(*final(commands)) is Some,
        queued(*final(commands)) == queued(*old(commands)).push(
            Entry::Sprite { entity: current_entity(*final(commands))->0, material, width, height },
        ),
{
    let sprite = Sprite::new(Vec2::new(width.into(), height.into()));
    commands.spawn(SpriteComponents { material, sprite, ..Default::default() });
}

/// `Commands::with` on the cell marker: queues it for the current entity.
#[verifier::external_body]
pub(crate) fn with_cell(commands: &mut Commands, cell: Cell)
    requires
        current_entity(*old(commands)) is Some,
    ensures
        reserver_set(*final(commands)) == reserver_set(*old(commands)),
        current_entity(*final(commands)) == current_entity(*old(commands)),
        queued(*final(commands)) == queued(*old(commands)).push(
            Entry::Cell { entity: current_entity(*old(commands))->0 },
        ),
{
    commands.with(cell);
}

/// `Commands::with` on a grid position: queues it for the current entity.
#[verifier::external_body]
pub(crate) fn with_position(commands: &mut Commands, pos: Position)
    requires
        current_entity(*old(commands)) is Some,
    ensures
        reserver_set(*final(commands)) == reserver_set(*old(commands)),
        current_entity(*final(commands)) == current_entity(*old(commands)),
        queued(*final(commands)) == queued(*old(commands)).push(
            Entry::Position { entity: current_entity(*old(commands))->0, pos },
        ),
{
    commands.with(pos);
}

/// `Commands::spawn` on a block record alone: reserves an entity, makes it
/// the current one and queues the record for it. Which entity that is, is
/// the engine's choice, and its supply of identifiers is as for a sprite.
#[verifier::external_body]
pub(crate) fn spawn_block(commands: &mut Commands, block: Block)
    requires
        reserver_set(*old(commands)),
    ensures
        reserver_set(*final(commands)),
        current_entity(*final(commands)) is Some,
        queued(*final(commands)) == queued(*old(commands)).push(
            Entry::Block { entity: current_entity(*final(commands))->0, block: block@ },
        ),
{
    commands.spawn((block,));
}

} // verus!
