//! Blocks and their cells: the record kept of a block, and the routines that
//! queue a block's entities with the entity-component system.

use vstd::prelude::*;
use bevy::asset::Handle;
use bevy::ecs::{Commands, Entity};
use bevy::sprite::ColorMaterial;
use crate::commands::{
    current, current_entity, has_reserver, queued, reserver_set, spawn_block, spawn_sprite,
    with_cell, with_position, Entry,
};
use crate::materials::{BlockColor, Materials};
use crate::position::Position;
use crate::shape::{lemma_rect_cells, Shape};

verus! {

/// Marks an entity as one rendered square of the grid.
pub struct Cell;

/// The width and the height that a cell's sprite is created with. Both are
/// replaced as soon as the cell is placed in a window.
pub const INITIAL_CELL_SIZE: u16 = 1;

/// The record of a block: where it is anchored, its shape, how many quarter
/// turns clockwise it has made, and the entities of its cells.
#[derive(Debug)]
pub struct Block {
    pos: Position,
    shape: Shape,
    rot_count: i32,
    entities: Vec<Entity>,
}

/// What a block record holds.
pub struct BlockView {
    pub pos: Position,
    pub shape: Shape,
    pub rot_count: int,
    pub entities: Seq<Entity>,
}

impl View for Block {
    type V = BlockView;

    closed spec fn view(&self) -> BlockView {
        BlockView {
            pos: self.pos,
            shape: self.shape,
            rot_count: self.rot_count as int,
            entities: self.entities@,
        }
    }
}

impl Block {
    /// A block has one entity per cell of its shape and has never been turned.
    #[verifier::type_invariant]
    closed spec fn well_formed(self) -> bool {
        &&& self.rot_count == 0
        &&& self.entities@.len() == self.shape.spec_offsets().len()
    }

    pub fn pos(&self) -> (pos: Position)
        ensures
            pos == self@.pos,
    {
        self.pos
    }

    pub fn shape(&self) -> (shape: Shape)
        ensures
            shape == self@.shape,
    {
        self.shape
    }

    pub fn rot_count(&self) -> (turns: i32)
        ensures
            turns == self@.rot_count,
            turns == 0,
    {
        proof {
            use_type_invariant(self);
        }
        self.rot_count
    }

    pub fn entities(&self) -> (entities: &Vec<Entity>)
        ensures
            entities@ == self@.entities,
            entities@.len() == self@.shape.spec_offsets().len(),
    {
        proof {
            use_type_invariant(self);
        }
        &self.entities
    }
}

/// The queue entries that make one cell: its sprite, the cell marker and its
/// grid position, all for `entity`.
pub open spec fn cell_entries(entity: Entity, material: Handle<ColorMaterial>, pos: Position) -> Seq<Entry> {
    seq![
        Entry::Sprite { entity, material, width: INITIAL_CELL_SIZE, height: INITIAL_CELL_SIZE },
        Entry::Cell { entity },
        Entry::Position { entity, pos },
    ]
}

/// The queue entries that make the cells `entities` at `positions`, cell after
/// cell, all drawn with `material`.
pub open spec fn cells_entries(
    entities: Seq<Entity>,
    positions: Seq<Position>,
    material: Handle<ColorMaterial>,
) -> Seq<Entry>
    decreases entities.len(),
{
    if entities.len() == 0 {
        Seq::empty()
    } else {
        cells_entries(entities.drop_last(), positions.drop_last(), material) + cell_entries(
            entities.last(),
            material,
            positions.last(),
        )
    }
}

/// How the queue `after` the creation of a block relates to the queue
/// `before` it: the cells of the shape come first, at the anchor plus each
/// offset of the shape in order, and the block's record comes last. The record
/// lists the cells' entities in that order and belongs to `entity`.
pub open spec fn block_queued(
    before: Seq<Entry>,
    after: Seq<Entry>,
    pos: Position,
    shape: Shape,
    material: Handle<ColorMaterial>,
    entity: Entity,
) -> bool {
    &&& after.len() > 0
    &&& after.last() matches Entry::Block { entity: owner, block }
    &&& owner == entity
    &&& block.pos == pos
    &&& block.shape == shape
    &&& block.rot_count == 0
    &&& block.entities.len() == shape.spec_offsets().len()
    &&& after.drop_last() == before + cells_entries(block.entities, shape.cells_at(pos), material)
}

/// Where a square block fits, creating it adds thirteen entries to the queue:
/// three for each of four cells, which lie at the anchor, one column on, one
/// row on, and one column and one row on, in this order; and then the record,
/// which lists the four cells.
pub proof fn lemma_rect_block_queued(
    before: Seq<Entry>,
    after: Seq<Entry>,
    pos: Position,
    material: Handle<ColorMaterial>,
    entity: Entity,
)
    requires
        pos.x < i32::MAX,
        pos.y < i32::MAX,
        block_queued(before, after, pos, Shape::Rect, material, entity),
    ensures
        after.len() == before.len() + 13,
        after.last() is Block,
        ({
            let cells = after.last()->block.entities;
            &&& cells.len() == 4
            &&& after == before + cell_entries(cells[0], material, pos) + cell_entries(
                cells[1],
                material,
                Position { x: (pos.x + 1) as i32, y: pos.y },
            ) + cell_entries(cells[2], material, Position { x: pos.x, y: (pos.y + 1) as i32 })
                + cell_entries(
                cells[3],
                material,
                Position { x: (pos.x + 1) as i32, y: (pos.y + 1) as i32 },
            ) + seq![after.last()]
        }),
{
    lemma_rect_cells(pos);
    reveal_with_fuel(cells_entries, 5);
    assert(after == after.drop_last() + seq![after.last()]);
}

/// Queues one cell at `pos`, drawn in `color`, and returns its entity.
pub fn create_cell(
    pos: Position,
    color: BlockColor,
    commands: &mut Commands,
    materials: &Materials,
) -> (cell: Entity)
    requires
        reserver_set(*old(commands)),
    ensures
        reserver_set(*final(commands)),
        current_entity(*final(commands)) == Some(cell),
        queued(*final(commands)) == queued(*old(commands)) + cell_entries(
            cell,
            materials.material_of(color),
            pos,
        ),
{
    spawn_sprite(commands, materials.get_material(color), INITIAL_CELL_SIZE, INITIAL_CELL_SIZE);
    with_cell(commands, Cell);
    with_position(commands, pos);
    current(commands).unwrap()
}

/// Queues a block of the given shape anchored at `pos`: one cell per offset
/// of the shape, then the block's record, whose entity is returned.
pub fn create_block(
    pos: Position,
    shape: Shape,
    color: BlockColor,
    commands: &mut Commands,
    materials: &Materials,
) -> (block: Entity)
    requires
        shape.is_supported(),
        shape.fits_at(pos),
        reserver_set(*old(commands)),
    ensures
        reserver_set(*final(commands)),
        current_entity(*final(commands)) == Some(block),
        block_queued(
            queued(*old(commands)),
            queued(*final(commands)),
            pos,
            shape,
            materials.material_of(color),
            block,
        ),
{
    let offsets = shape.offsets().unwrap();
    let ghost before = queued(*commands);
    let ghost material = materials.material_of(color);
    let mut entities: Vec<Entity> = Vec::new();
    let mut i: usize = 0;
    while i < offsets.len()
        invariant
            i <= offsets.len(),
            offsets@ == shape.spec_offsets(),
            shape.fits_at(pos),
            material == materials.material_of(color),
            reserver_set(*commands),
            entities@.len() == i,
            queued(*commands) == before + cells_entries(
                entities@,
                shape.cells_at(pos).take(i as int),
                material,
            ),
        decreases offsets.len() - i,
    {
        let ghost done = entities@;
        let cell = create_cell(pos + offsets[i], color, commands, materials);
        entities.push(cell);
        proof {
            let cells = shape.cells_at(pos);
            assert(entities@.drop_last() == done);
            assert(cells.take(i + 1).drop_last() == cells.take(i as int));
        }
        i += 1;
    }
    proof {
        assert(shape.cells_at(pos).take(i as int) == shape.cells_at(pos));
    }
    let record = Block { pos, shape, rot_count: 0, entities };
    let ghost cells = queued(*commands);
    spawn_block(commands, record);
    proof {
        assert(queued(*commands).drop_last() == cells);
    }
    current(commands).unwrap()
}

/// Queues one cell as `create_cell` does, if the queue can spawn at all.
/// Otherwise nothing is queued and `None` comes back.
pub fn try_create_cell(
    pos: Position,
    color: BlockColor,
    commands: &mut Commands,
    materials: &Materials,
) -> (cell: Option<Entity>)
    ensures
        cell is Some <==> reserver_set(*old(commands)),
        cell matches Some(entity) ==> {
            &&& reserver_set(*final(commands))
            &&& current_entity(*final(commands)) == Some(entity)
            &&& queued(*final(commands)) == queued(*old(commands)) + cell_entries(
                entity,
                materials.material_of(color),
                pos,
            )
        },
        cell is None ==> *final(commands) == *old(commands),
{
    if has_reserver(commands) {
        Some(create_cell(pos, color, commands, materials))
    } else {
        None
    }
}

/// Queues a block as `create_block` does, if the shape has a layout, all its
/// cells have representable coordinates at `pos` and the queue can spawn.
/// Otherwise nothing is queued and `None` comes back.
pub fn try_create_block(
    pos: Position,
    shape: Shape,
    color: BlockColor,
    commands: &mut Commands,
    materials: &Materials,
) -> (block: Option<Entity>)
    ensures
        block is Some <==> shape.is_supported() && shape.fits_at(pos) && reserver_set(
            *old(commands),
        ),
        block matches Some(entity) ==> {
            &&& reserver_set(*final(commands))
            &&& current_entity(*final(commands)) == Some(entity)
            &&& block_queued(
                queued(*old(commands)),
                queued(*final(commands)),
                pos,
                shape,
                materials.material_of(color),
                entity,
            )
        },
        block is None ==> *final(commands) == *old(commands),
{
    if shape.can_place(pos) && has_reserver(commands) {
        Some(create_block(pos, shape, color, commands, materials))
    } else {
        None
    }
}

} // verus!
