use bevy::asset::Handle;
use bevy::ecs::{Commands, Entity, Resources, World};
use bevy::math::Vec2;
use bevy::sprite::{ColorMaterial, Sprite, SpriteResizeMode};
use bevy_tetris::{
    create_block, create_cell, try_create_block, try_create_cell, Block, BlockColor, Cell,
    Materials, Position, Shape,
};

fn materials() -> Materials {
    Materials {
        red_mat: Handle::from_u128(11),
        blue_mat: Handle::from_u128(22),
        green_mat: Handle::from_u128(33),
    }
}

fn ready_commands(world: &World) -> Commands {
    let commands = Commands::default();
    commands.set_entity_reserver(world.get_entity_reserver());
    commands
}

fn position_of(world: &World, entity: Entity) -> (i32, i32) {
    let pos = world.get::<Position>(entity).unwrap();
    (pos.x, pos.y)
}

fn cell_positions(world: &World, block: Entity) -> Vec<(i32, i32)> {
    let record = world.get::<Block>(block).unwrap();
    record.entities().iter().map(|cell| position_of(world, *cell)).collect()
}

fn count_cells(world: &World) -> usize {
    world.query::<&Cell>().iter().count()
}

#[test]
fn rect_block_at_the_origin_has_four_cells_in_order() {
    let mut world = World::new();
    let mut resources = Resources::default();
    let mut commands = ready_commands(&world);
    let block = create_block(Position::new(0, 0), Shape::Rect, BlockColor::RED, &mut commands, &materials());
    commands.apply(&mut world, &mut resources);
    assert_eq!(cell_positions(&world, block), vec![(0, 0), (1, 0), (0, 1), (1, 1)]);
    assert_eq!(count_cells(&world), 4);
}

#[test]
fn rect_block_cells_follow_the_anchor() {
    for &(x, y) in [(3, 4), (-7, 12), (i32::MIN, i32::MIN), (i32::MAX - 1, i32::MAX - 1), (9, 15)].iter() {
        let mut world = World::new();
        let mut resources = Resources::default();
        let mut commands = ready_commands(&world);
        let block = create_block(Position::new(x, y), Shape::Rect, BlockColor::BLUE, &mut commands, &materials());
        commands.apply(&mut world, &mut resources);
        assert_eq!(
            cell_positions(&world, block),
            vec![(x, y), (x + 1, y), (x, y + 1), (x + 1, y + 1)]
        );
    }
}

#[test]
fn block_record_keeps_anchor_shape_and_cells() {
    let mut world = World::new();
    let mut resources = Resources::default();
    let mut commands = ready_commands(&world);
    let block = create_block(Position::new(5, 6), Shape::Rect, BlockColor::GREEN, &mut commands, &materials());
    assert_eq!(commands.current_entity(), Some(block));
    commands.apply(&mut world, &mut resources);
    let record = world.get::<Block>(block).unwrap();
    assert_eq!((record.pos().x, record.pos().y), (5, 6));
    assert!(matches!(record.shape(), Shape::Rect));
    assert_eq!(record.rot_count(), 0);
    assert_eq!(record.entities().len(), 4);
    // the record's entity is none of its cells, and the cells are four entities
    let mut all = record.entities().clone();
    all.push(block);
    all.sort();
    all.dedup();
    assert_eq!(all.len(), 5);
    // the block's entity carries the record alone
    assert!(world.get::<Position>(block).is_err());
    assert!(world.get::<Cell>(block).is_err());
}

#[test]
fn cells_of_a_block_are_sprites_in_the_block_colour() {
    for (color, expected) in [
        (BlockColor::RED, Handle::<ColorMaterial>::from_u128(11)),
        (BlockColor::BLUE, Handle::from_u128(22)),
        (BlockColor::GREEN, Handle::from_u128(33)),
    ]
    .iter()
    {
        let mut world = World::new();
        let mut resources = Resources::default();
        let mut commands = ready_commands(&world);
        let block = create_block(Position::new(0, 0), Shape::Rect, *color, &mut commands, &materials());
        commands.apply(&mut world, &mut resources);
        let record = world.get::<Block>(block).unwrap();
        for cell in record.entities().iter() {
            assert!(world.get::<Cell>(*cell).is_ok());
            assert_eq!(*world.get::<Handle<ColorMaterial>>(*cell).unwrap(), *expected);
            let sprite = world.get::<Sprite>(*cell).unwrap();
            assert_eq!(sprite.size, Vec2::new(1.0, 1.0));
            assert!(matches!(sprite.resize_mode, SpriteResizeMode::Manual));
        }
    }
}

#[test]
fn two_blocks_queue_side_by_side() {
    let mut world = World::new();
    let mut resources = Resources::default();
    let mut commands = ready_commands(&world);
    let first = create_block(Position::new(0, 0), Shape::Rect, BlockColor::RED, &mut commands, &materials());
    let second = create_block(Position::new(2, 0), Shape::Rect, BlockColor::BLUE, &mut commands, &materials());
    assert_ne!(first, second);
    commands.apply(&mut world, &mut resources);
    assert_eq!(cell_positions(&world, first), vec![(0, 0), (1, 0), (0, 1), (1, 1)]);
    assert_eq!(cell_positions(&world, second), vec![(2, 0), (3, 0), (2, 1), (3, 1)]);
    assert_eq!(count_cells(&world), 8);
    assert_eq!(world.query::<&Block>().iter().count(), 2);
}

#[test]
fn create_cell_queues_sprite_marker_and_position() {
    let mut world = World::new();
    let mut resources = Resources::default();
    let mut commands = ready_commands(&world);
    let cell = create_cell(Position::new(-2, 9), BlockColor::GREEN, &mut commands, &materials());
    assert_eq!(commands.current_entity(), Some(cell));
    // nothing reaches the world before the queue is applied
    assert!(world.get::<Position>(cell).is_err());
    commands.apply(&mut world, &mut resources);
    assert_eq!(position_of(&world, cell), (-2, 9));
    assert!(world.get::<Cell>(cell).is_ok());
    assert_eq!(*world.get::<Handle<ColorMaterial>>(cell).unwrap(), Handle::from_u128(33));
    assert_eq!(world.get::<Sprite>(cell).unwrap().size, Vec2::new(1.0, 1.0));
    assert_eq!(count_cells(&world), 1);
}

#[test]
fn try_create_cell_needs_a_reserver() {
    let mut world = World::new();
    let mut resources = Resources::default();
    let mut bare = Commands::default();
    assert!(try_create_cell(Position::new(0, 0), BlockColor::RED, &mut bare, &materials()).is_none());
    assert_eq!(bare.current_entity(), None);
    bare.apply(&mut world, &mut resources);
    assert_eq!(count_cells(&world), 0);

    let mut commands = ready_commands(&world);
    let cell = try_create_cell(Position::new(4, 4), BlockColor::RED, &mut commands, &materials()).unwrap();
    commands.apply(&mut world, &mut resources);
    assert_eq!(position_of(&world, cell), (4, 4));
}

#[test]
fn try_create_block_makes_a_rect_block() {
    let mut world = World::new();
    let mut resources = Resources::default();
    let mut commands = ready_commands(&world);
    let block = try_create_block(Position::new(1, 2), Shape::Rect, BlockColor::RED, &mut commands, &materials())
        .unwrap();
    commands.apply(&mut world, &mut resources);
    assert_eq!(cell_positions(&world, block), vec![(1, 2), (2, 2), (1, 3), (2, 3)]);
}

#[test]
fn try_create_block_refuses_every_shape_but_rect() {
    for shape in [Shape::L, Shape::I, Shape::T, Shape::S].iter() {
        let mut world = World::new();
        let mut resources = Resources::default();
        let mut commands = ready_commands(&world);
        let block = try_create_block(Position::new(0, 0), *shape, BlockColor::RED, &mut commands, &materials());
        assert!(block.is_none());
        assert_eq!(commands.current_entity(), None);
        commands.apply(&mut world, &mut resources);
        assert_eq!(world.iter().count(), 0);
    }
}

#[test]
fn try_create_block_refuses_an_anchor_in_the_last_column_or_row() {
    for &(x, y) in [(i32::MAX, 0), (0, i32::MAX), (i32::MAX, i32::MAX)].iter() {
        let mut world = World::new();
        let mut resources = Resources::default();
        let mut commands = ready_commands(&world);
        let block = try_create_block(Position::new(x, y), Shape::Rect, BlockColor::RED, &mut commands, &materials());
        assert!(block.is_none());
        commands.apply(&mut world, &mut resources);
        assert_eq!(world.iter().count(), 0);
    }
}

#[test]
fn try_create_block_needs_a_reserver() {
    let mut world = World::new();
    let mut resources = Resources::default();
    let mut bare = Commands::default();
    let block = try_create_block(Position::new(0, 0), Shape::Rect, BlockColor::RED, &mut bare, &materials());
    assert!(block.is_none());
    bare.apply(&mut world, &mut resources);
    assert_eq!(world.iter().count(), 0);
}

#[test]
fn block_joins_what_was_queued_before() {
    let mut world = World::new();
    let mut resources = Resources::default();
    let mut commands = ready_commands(&world);
    commands.spawn((7u32,));
    let earlier = commands.current_entity().unwrap();
    let block = create_block(Position::new(0, 0), Shape::Rect, BlockColor::RED, &mut commands, &materials());
    commands.apply(&mut world, &mut resources);
    assert_eq!(*world.get::<u32>(earlier).unwrap(), 7);
    assert_eq!(cell_positions(&world, block), vec![(0, 0), (1, 0), (0, 1), (1, 1)]);
    assert_eq!(world.iter().count(), 6);
}
