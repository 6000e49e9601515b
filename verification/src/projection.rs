//! From grid coordinates to pixels: where a cell is drawn in a window of a
//! given size, and how large.
//!
//! The grid has a fixed number of columns and rows. A cell's size is the
//! window's size divided by these counts; its centre is measured from the
//! centre of the window. All divisions round toward zero.

use vstd::prelude::*;
use bevy::window::Windows;
use crate::position::Position;

verus! {

/// The number of cells in one row of the grid: its columns.
pub const CELLS_IN_ROW: i32 = 10;

/// The number of cells in one column of the grid: its rows.
pub const CELLS_IN_COLUMN: i32 = 16;

/// Where a cell is drawn: the pixel coordinates of its centre, measured from
/// the centre of the window, and its size in pixels.
#[derive(Debug, Copy, Clone)]
pub struct Placement {
    pub x: i32,
    pub y: i32,
    pub width: i32,
    pub height: i32,
}

/// The quotient of `a` by a positive `b`, rounded toward zero.
pub open spec fn trunc_div(a: int, b: int) -> int
    recommends
        b > 0,
{
    if a >= 0 {
        a / b
    } else {
        -((-a) / b)
    }
}

/// A window dimension read as a signed 32-bit number: itself up to the largest
/// such number, and 2^32 less beyond it.
pub open spec fn signed(dim: u32) -> int {
    if dim <= i32::MAX {
        dim as int
    } else {
        dim - 0x1_0000_0000
    }
}

/// The size of a cell along one axis of a window that is `dim` pixels long
/// and holds `cells` cells along that axis.
pub open spec fn cell_size(dim: u32, cells: int) -> int {
    trunc_div(signed(dim), cells)
}

/// The pixel coordinate of the centre of the cell at grid coordinate `coord`,
/// along one axis: the cell's near edge, plus half a cell, less half the window.
pub open spec fn cell_center(coord: int, dim: u32, cells: int) -> int {
    coord * cell_size(dim, cells) + trunc_div(cell_size(dim, cells), 2) - trunc_div(signed(dim), 2)
}

/// Whether the centre along one axis can be computed in 32 bits, step by step.
pub open spec fn axis_fits(coord: int, dim: u32, cells: int) -> bool {
    &&& i32::MIN <= coord * cell_size(dim, cells) <= i32::MAX
    &&& i32::MIN <= coord * cell_size(dim, cells) + trunc_div(cell_size(dim, cells), 2) <= i32::MAX
    &&& i32::MIN <= cell_center(coord, dim, cells) <= i32::MAX
}

/// Whether the cell at `pos` can be placed in a window of the given size.
pub open spec fn can_transform(pos: Position, window_width: u32, window_height: u32) -> bool {
    &&& axis_fits(pos.x as int, window_width, CELLS_IN_ROW as int)
    &&& axis_fits(pos.y as int, window_height, CELLS_IN_COLUMN as int)
}

/// Where the cell at `pos` is drawn in a window of the given size.
pub open spec fn placement(pos: Position, window_width: u32, window_height: u32) -> Placement {
    Placement {
        x: cell_center(pos.x as int, window_width, CELLS_IN_ROW as int) as i32,
        y: cell_center(pos.y as int, window_height, CELLS_IN_COLUMN as int) as i32,
        width: cell_size(window_width, CELLS_IN_ROW as int) as i32,
        height: cell_size(window_height, CELLS_IN_COLUMN as int) as i32,
    }
}

/// Reads a window dimension as a signed number.
fn to_signed(dim: u32) -> (s: i32)
    ensures
        s == signed(dim),
{
    // beyond the largest signed number the cast takes 2^32 off, in two halves
    assert(dim > 0x7fff_ffffu32 ==> (dim as i32) == ((dim - 0x8000_0000u32) as u32) as i32
        + (-0x8000_0000i32)) by (bit_vector);
    #[verifier::truncate]
    (dim as i32)
}

/// The centre and the size of a cell along one axis.
fn transform_axis(coord: i32, dim: u32, cells: i32) -> (placed: (i32, i32))
    requires
        cells > 0,
        axis_fits(coord as int, dim, cells as int),
    ensures
        placed.0 == cell_center(coord as int, dim, cells as int),
        placed.1 == cell_size(dim, cells as int),
{
    let length = to_signed(dim);
    let size = length / cells;
    (coord * size + size / 2 - length / 2, size)
}

/// Whether `axis_fits` holds, found out in 64 bits.
fn axis_in_range(coord: i32, dim: u32, cells: i32) -> (ok: bool)
    requires
        cells > 0,
    ensures
        ok == axis_fits(coord as int, dim, cells as int),
{
    let length = to_signed(dim) as i64;
    let size = length / (cells as i64);
    assert(-0x8000_0000 <= size <= 0x7fff_ffff) by (nonlinear_arith)
        requires
            -0x8000_0000 <= length <= 0x7fff_ffff,
            cells > 0,
            size == trunc_div(length as int, cells as int),
    ;
    assert(-0x4000_0000_0000_0000 <= coord * size <= 0x4000_0000_0000_0000) by (nonlinear_arith)
        requires
            -0x8000_0000 <= size <= 0x7fff_ffff,
            -0x8000_0000 <= coord <= 0x7fff_ffff,
    ;
    let edge = (coord as i64) * size;
    let middle = edge + size / 2;
    let center = middle - length / 2;
    let low = i32::MIN as i64;
    let high = i32::MAX as i64;
    low <= edge && edge <= high && low <= middle && middle <= high && low <= center
        && center <= high
}

/// The pixel centre and pixel size of the cell at `pos` in a window of the
/// given size.
pub fn place_cell(pos: Position, window_width: u32, window_height: u32) -> (placed: Placement)
    requires
        can_transform(pos, window_width, window_height),
    ensures
        placed == placement(pos, window_width, window_height),
{
    let (x, width) = transform_axis(pos.x, window_width, CELLS_IN_ROW);
    let (y, height) = transform_axis(pos.y, window_height, CELLS_IN_COLUMN);
    Placement { x, y, width, height }
}

/// As `place_cell`, or `None` where a step of the computation leaves the range
/// of 32-bit numbers.
pub fn try_place_cell(
    pos: Position,
    window_width: u32,
    window_height: u32,
) -> (placed: Option<Placement>)
    ensures
        placed is Some <==> can_transform(pos, window_width, window_height),
        placed matches Some(p) ==> p == placement(pos, window_width, window_height),
{
    if axis_in_range(pos.x, window_width, CELLS_IN_ROW)
        && axis_in_range(pos.y, window_height, CELLS_IN_COLUMN)
    {
        Some(place_cell(pos, window_width, window_height))
    } else {
        None
    }
}

/// The engine's collection of windows, opaque here.
#[verifier::external_type_specification]
#[verifier::external_body]
pub struct ExWindows(Windows);

/// The width and the height in pixels of the primary window, if the
/// collection holds one.
pub uninterp spec fn primary_size(windows: Windows) -> Option<(u32, u32)>;

/// `Windows::get_primary`, and of the window found its `width` and `height`.
#[verifier::external_body]
fn primary_window_size(windows: &Windows) -> (size: Option<(u32, u32)>)
    ensures
        size == primary_size(*windows),
{
    windows.get_primary().map(|window| (window.width, window.height))
}

/// Whether the cell at `pos` can be placed in the primary window: there is
/// such a window, and the computation stays in range for its size.
pub open spec fn can_transform_in(windows: Windows, pos: Position) -> bool {
    primary_size(windows) matches Some(size) && can_transform(pos, size.0, size.1)
}

/// Where the cell at `pos` is drawn in the primary window.
pub open spec fn placement_in(windows: Windows, pos: Position) -> Placement
    recommends
        primary_size(windows) is Some,
{
    let size = primary_size(windows)->0;
    placement(pos, size.0, size.1)
}

/// The pixel centre and pixel size of the cell at `pos` in the primary window.
pub fn transform_cell(windows: &Windows, pos: Position) -> (placed: Placement)
    requires
        can_transform_in(*windows, pos),
    ensures
        placed == placement_in(*windows, pos),
{
    let (width, height) = primary_window_size(windows).unwrap();
    place_cell(pos, width, height)
}

/// As `transform_cell`, or `None` where there is no primary window or a step
/// of the computation leaves the range of 32-bit numbers.
pub fn try_transform_cell(windows: &Windows, pos: Position) -> (placed: Option<Placement>)
    ensures
        placed is Some <==> can_transform_in(*windows, pos),
        placed matches Some(p) ==> p == placement_in(*windows, pos),
{
    match primary_window_size(windows) {
        Some((width, height)) => try_place_cell(pos, width, height),
        None => None,
    }
}

/// The cell at the grid's origin can be placed in every window, and its centre
/// is half a cell less half the window along each axis.
pub proof fn lemma_origin_placement(window_width: u32, window_height: u32)
    ensures
        can_transform(Position { x: 0, y: 0 }, window_width, window_height),
        placement(Position { x: 0, y: 0 }, window_width, window_height).x == trunc_div(
            trunc_div(signed(window_width), 10),
            2,
        ) - trunc_div(signed(window_width), 2),
        placement(Position { x: 0, y: 0 }, window_width, window_height).y == trunc_div(
            trunc_div(signed(window_height), 16),
            2,
        ) - trunc_div(signed(window_height), 2),
        window_width <= i32::MAX ==> placement(
            Position { x: 0, y: 0 },
            window_width,
            window_height,
        ).x == window_width / 10 / 2 - window_width / 2,
        window_height <= i32::MAX ==> placement(
            Position { x: 0, y: 0 },
            window_width,
            window_height,
        ).y == window_height / 16 / 2 - window_height / 2,
{
}

} // verus!
