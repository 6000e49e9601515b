//! The three block colours and the materials that draw them.

use vstd::prelude::*;
use bevy::asset::{Assets, Handle};
use bevy::render::color::Color;
use bevy::sprite::ColorMaterial;

verus! {

/// The engine's handle to an asset, opaque here.
#[verifier::external_type_specification]
#[verifier::external_body]
#[verifier::reject_recursive_types(T)]
pub struct ExHandle<T: 'static>(Handle<T>);

/// The engine's material of one colour or one texture, opaque here.
#[verifier::external_type_specification]
#[verifier::external_body]
pub struct ExColorMaterial(ColorMaterial);

/// The engine's collection of colour materials, borrowed for as long as
/// materials are added to it. The collection itself is the engine's and is
/// opaque here; `solid_colors` names what it holds.
#[verifier::external_body]
pub struct MaterialStore<'a> {
    /// The collection to add to.
    pub assets: &'a mut Assets<ColorMaterial>,
}

/// The colours a block can be drawn in.
#[derive(Debug, Copy, Clone)]
pub enum BlockColor {
    RED,
    BLUE,
    GREEN,
}

/// A colour as red, green and blue channels, each from 0 (off) to 255 (full).
pub type Rgb = (u8, u8, u8);

impl BlockColor {
    /// The channels of the solid colour that stands for this block colour.
    pub open spec fn spec_rgb(self) -> Rgb {
        match self {
            BlockColor::RED => (255u8, 0u8, 0u8),
            BlockColor::BLUE => (0u8, 0u8, 255u8),
            BlockColor::GREEN => (0u8, 255u8, 0u8),
        }
    }

    pub fn rgb(self) -> (channels: Rgb)
        ensures
            channels == self.spec_rgb(),
    {
        match self {
            BlockColor::RED => (255, 0, 0),
            BlockColor::BLUE => (0, 0, 255),
            BlockColor::GREEN => (0, 255, 0),
        }
    }
}

/// One material handle per block colour.
#[derive(Default)]
pub struct Materials {
    pub red_mat: Handle<ColorMaterial>,
    pub blue_mat: Handle<ColorMaterial>,
    pub green_mat: Handle<ColorMaterial>,
}

impl Materials {
    /// The handle kept for `color`.
    pub open spec fn material_of(self, color: BlockColor) -> Handle<ColorMaterial> {
        match color {
            BlockColor::RED => self.red_mat,
            BlockColor::BLUE => self.blue_mat,
            BlockColor::GREEN => self.green_mat,
        }
    }

    /// No two colours share a handle.
    pub open spec fn distinct(self) -> bool {
        &&& self.red_mat != self.blue_mat
        &&& self.red_mat != self.green_mat
        &&& self.blue_mat != self.green_mat
    }

    pub fn get_material(&self, color: BlockColor) -> (material: Handle<ColorMaterial>)
        ensures
            material == self.material_of(color),
    {
        match color {
            BlockColor::RED => self.red_mat,
            BlockColor::BLUE => self.blue_mat,
            BlockColor::GREEN => self.green_mat,
        }
    }
}

/// The materials in the collection that have no texture and an opaque colour
/// with whole 8-bit channels: the handle of each, mapped to its channels.
pub uninterp spec fn solid_colors(store: MaterialStore) -> Map<Handle<ColorMaterial>, Rgb>;

/// `Assets::add` on `ColorMaterial::color(Color::rgb_u8(r, g, b))`: the material
/// is stored under the handle that comes back, which the collection draws at
/// random; whatever was stored under other handles stays.
#[verifier::external_body]
fn add_solid_color(store: &mut MaterialStore, r: u8, g: u8, b: u8) -> (handle: Handle<ColorMaterial>)
    ensures
        solid_colors(*final(store)) == solid_colors(*old(store)).insert(handle, (r, g, b)),
{
    store.assets.add(ColorMaterial::color(Color::rgb_u8(r, g, b)))
}

/// The solid colours of a collection after those of the three block colours
/// have been stored in it under the handles in `materials`: red first, then
/// blue, then green, so that of two colours under one handle the later stays.
pub open spec fn with_block_colors(
    before: Map<Handle<ColorMaterial>, Rgb>,
    materials: Materials,
) -> Map<Handle<ColorMaterial>, Rgb> {
    before
        .insert(materials.red_mat, BlockColor::RED.spec_rgb())
        .insert(materials.blue_mat, BlockColor::BLUE.spec_rgb())
        .insert(materials.green_mat, BlockColor::GREEN.spec_rgb())
}

/// Creates one solid material per block colour in the collection and records
/// their handles in `mat_assets`. The handles are the collection's choice.
pub fn init_materials(mat_assets: &mut Materials, color_mat_res: &mut MaterialStore)
    ensures
        solid_colors(*final(color_mat_res)) == with_block_colors(
            solid_colors(*old(color_mat_res)),
            *final(mat_assets),
        ),
{
    let (r, g, b) = BlockColor::RED.rgb();
    mat_assets.red_mat = add_solid_color(color_mat_res, r, g, b);
    let (r, g, b) = BlockColor::BLUE.rgb();
    mat_assets.blue_mat = add_solid_color(color_mat_res, r, g, b);
    let (r, g, b) = BlockColor::GREEN.rgb();
    mat_assets.green_mat = add_solid_color(color_mat_res, r, g, b);
}

/// Where the three handles differ, the collection holds under the handle of
/// every block colour the solid colour that stands for it.
pub proof fn lemma_block_colors_stored(
    before: Map<Handle<ColorMaterial>, Rgb>,
    materials: Materials,
    color: BlockColor,
)
    requires
        materials.distinct(),
    ensures
        with_block_colors(before, materials).contains_key(materials.material_of(color)),
        with_block_colors(before, materials)[materials.material_of(color)] == color.spec_rgb(),
{
}

/// Where the three handles differ, different colours get different handles.
pub proof fn lemma_lookup_injective(materials: Materials, a: BlockColor, b: BlockColor)
    requires
        materials.distinct(),
        materials.material_of(a) == materials.material_of(b),
    ensures
        a == b,
{
}

} // verus!
