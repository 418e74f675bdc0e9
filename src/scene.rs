use rand::{Rng, SeedableRng};
use rand_chacha::ChaCha8Rng;
use vstd::prelude::*;

use crate::controls::Translation;
use crate::viewport::{
    minimap_config, minimap_config_result, zoom_config, zoom_config_result, Frac, Projection,
    ViewportRect,
};

verus! {

/// Render layer seen by the zoom camera.
pub const RENDER_LAYER_ZOOM: usize = 1;

/// Render layer seen by the minimap camera.
pub const RENDER_LAYER_MINIMAP: usize = 2;

/// Draw order of the zoom camera; the minimap is drawn over it.
pub const ZOOM_CAMERA_ORDER: isize = 1;
pub const MINIMAP_CAMERA_ORDER: isize = 2;

/// Starting depth of each camera.
pub const ZOOM_CAMERA_DEPTH: i64 = 100;
pub const MINIMAP_CAMERA_DEPTH: i64 = 200;

/// Sprites per row and rows of the sprite field.
pub const GRID_SIDE: usize = 10;

/// Number of sprites in the field.
pub const GRID_CELLS: usize = 100;

/// World x of the first column.
pub const GRID_ORIGIN_X: i64 = -5000;

/// Distance between neighbouring sprites, in world units.
pub const GRID_SPACING: i64 = 1600;

/// Side of a sprite texture, in texels.
pub const TEXTURE_SIDE: u64 = 512;

/// Depth of every sprite.
pub const SPRITE_DEPTH: i64 = -280;

/// Seed of the generator that picks each sprite's texture.
pub const SPRITE_SEED: u64 = 10;

/// The two textures of the sprite field.
#[derive(Clone, Copy, Debug, PartialEq, Eq, Structural)]
pub enum Texture {
    First,
    Second,
}

/// A sprite to spawn: world position, uniform scale of its texture, and the
/// texture; it is seen by both cameras.
#[derive(Clone, Copy, Debug, PartialEq, Eq, Structural)]
pub struct SpriteSpec {
    pub x: i64,
    pub y: i64,
    pub z: i64,
    pub scale: Frac,
    pub texture: Texture,
}

/// A camera to spawn: draw order, where it draws, what it shows, where it
/// stands and which render layer it sees.
#[derive(Clone, Copy, Debug, PartialEq, Eq, Structural)]
pub struct CameraSpec {
    pub order: isize,
    pub viewport: ViewportRect,
    pub projection: Projection,
    pub translation: Translation,
    pub layer: usize,
}

/// Everything spawned at startup.
#[derive(Debug)]
pub struct SceneLayout {
    pub zoom: CameraSpec,
    pub minimap: CameraSpec,
    pub sprites: Vec<SpriteSpec>,
}

/// Scale that stretches a texture over one grid cell.
pub open spec fn sprite_scale() -> Frac {
    Frac { num: GRID_SPACING as u64, den: TEXTURE_SIDE }
}

/// Texture picked by a random byte: the first one for an even byte.
pub open spec fn texture_of(b: u8) -> Texture {
    if b % 2 == 0 {
        Texture::First
    } else {
        Texture::Second
    }
}

/// Column of the `i`-th sprite, in row-major order.
pub open spec fn grid_col(i: int) -> int {
    i % (GRID_SIDE as int)
}

/// Row of the `i`-th sprite, in row-major order.
pub open spec fn grid_row(i: int) -> int {
    i / (GRID_SIDE as int)
}

/// The sprite at `(x, y)` showing `texture`.
pub open spec fn sprite_at(x: int, y: int, texture: Texture) -> SpriteSpec {
    SpriteSpec { x: x as i64, y: y as i64, z: SPRITE_DEPTH, scale: sprite_scale(), texture }
}

/// The `i`-th sprite of the field, its texture picked by byte `b`.
pub open spec fn grid_sprite(i: int, b: u8) -> SpriteSpec {
    sprite_at(
        GRID_ORIGIN_X + GRID_SPACING * grid_col(i),
        GRID_SPACING * grid_row(i),
        texture_of(b),
    )
}

/// The sequence is the sprite field: one sprite per cell in row-major
/// order, each at its cell's position, depth and scale.
pub open spec fn is_sprite_field(s: Seq<SpriteSpec>) -> bool {
    &&& s.len() == GRID_CELLS
    &&& forall|i: int|
        0 <= i < s.len() ==> {
            &&& (#[trigger] s[i]).x == GRID_ORIGIN_X + GRID_SPACING * grid_col(i)
            &&& s[i].y == GRID_SPACING * grid_row(i)
            &&& s[i].z == SPRITE_DEPTH
            &&& s[i].scale == sprite_scale()
        }
}

/// Texture picked by a random byte.
pub fn texture_for(b: u8) -> (r: Texture)
    ensures
        r == texture_of(b),
{
    if b % 2 == 0 {
        Texture::First
    } else {
        Texture::Second
    }
}

/// A sprite at `(x, y)` on the sprite depth, scaled to fill one grid cell.
pub fn new_sprite(x: i64, y: i64, texture: Texture) -> (r: SpriteSpec)
    ensures
        r == sprite_at(x as int, y as int, texture),
{
    SpriteSpec {
        x,
        y,
        z: SPRITE_DEPTH,
        scale: Frac { num: GRID_SPACING as u64, den: TEXTURE_SIDE },
        texture,
    }
}

/// The sprite field, one sprite per cell in row-major order, the `i`-th
/// showing the texture picked by `choices[i]`.
pub fn sprite_grid(choices: &Vec<u8>) -> (r: Vec<SpriteSpec>)
    requires
        choices.len() == GRID_CELLS,
    ensures
        r.len() == GRID_CELLS,
        forall|i: int| 0 <= i < GRID_CELLS ==> #[trigger] r[i] == grid_sprite(i, choices[i]),
        is_sprite_field(r@),
{
    let mut r: Vec<SpriteSpec> = Vec::new();
    let mut i: usize = 0;
    while i < GRID_CELLS
        invariant
            i <= GRID_CELLS,
            choices.len() == GRID_CELLS,
            r.len() == i,
            forall|j: int| 0 <= j < i ==> #[trigger] r[j] == grid_sprite(j, choices[j]),
        decreases GRID_CELLS - i,
    {
        let col = (i % GRID_SIDE) as i64;
        let row = (i / GRID_SIDE) as i64;
        assert(0 <= GRID_SPACING * col <= 16000 && 0 <= GRID_SPACING * row <= 16000)
            by (nonlinear_arith)
            requires
                0 <= col < 10,
                0 <= row < 10,
                GRID_SPACING == 1600;
        let sprite = new_sprite(
            GRID_ORIGIN_X + GRID_SPACING * col,
            GRID_SPACING * row,
            texture_for(choices[i]),
        );
        r.push(sprite);
        i += 1;
    }
    r
}

/// Where each sprite of a field stands: column `col` and row `row` hold the
/// sprite at `x = GRID_ORIGIN_X + GRID_SPACING * col`,
/// `y = GRID_SPACING * row`, for every cell of the ten by ten field.
pub proof fn lemma_sprite_field_positions(s: Seq<SpriteSpec>, row: int, col: int)
    requires
        is_sprite_field(s),
        0 <= row < GRID_SIDE,
        0 <= col < GRID_SIDE,
    ensures
        0 <= row * GRID_SIDE + col < s.len(),
        s[row * GRID_SIDE + col].x == GRID_ORIGIN_X + GRID_SPACING * col,
        s[row * GRID_SIDE + col].y == GRID_SPACING * row,
{
    let i = row * GRID_SIDE + col;
    assert(0 <= i < 100 && i % 10 == col && i / 10 == row) by (nonlinear_arith)
        requires
            i == row * 10 + col,
            0 <= row < 10,
            0 <= col < 10;
    assert(s[i].x == GRID_ORIGIN_X + GRID_SPACING * grid_col(i));
}

/// rand_chacha's ChaCha generator with eight rounds, carried through as an
/// opaque value.
#[verifier::external_type_specification]
#[verifier::external_body]
pub struct ExChaCha8Rng(ChaCha8Rng);

/// Relies on rand_core's `SeedableRng::seed_from_u64` for rand_chacha's
/// `ChaCha8Rng`: a generator whose stream depends on the seed alone.
#[verifier::external_body]
fn seeded_rng(seed: u64) -> (r: ChaCha8Rng) {
    ChaCha8Rng::seed_from_u64(seed)
}

/// Relies on rand's `Rng::gen::<u8>`: the next byte of the generator's
/// stream. Nothing is assumed of its value.
#[verifier::external_body]
fn next_byte(rng: &mut ChaCha8Rng) -> (r: u8) {
    rng.gen::<u8>()
}

/// Draws one byte per sprite of the field from the generator.
pub fn draw_choices(rng: &mut ChaCha8Rng) -> (r: Vec<u8>)
    ensures
        r.len() == GRID_CELLS,
{
    let mut r: Vec<u8> = Vec::new();
    let mut i: usize = 0;
    while i < GRID_CELLS
        invariant
            i <= GRID_CELLS,
            r.len() == i,
        decreases GRID_CELLS - i,
    {
        r.push(next_byte(rng));
        i += 1;
    }
    r
}

/// The whole startup scene for a window `w` by `h` pixels: the zoom camera
/// over the whole window, the minimap camera in its corner, and the sprite
/// field with textures picked by a generator seeded with `SPRITE_SEED`.
pub fn setup(w: u32, h: u32) -> (r: SceneLayout)
    ensures
        (r.zoom.viewport, r.zoom.projection) == zoom_config_result(w, h),
        r.zoom.order == ZOOM_CAMERA_ORDER,
        r.zoom.translation == (Translation { x: 0, y: 0, z: ZOOM_CAMERA_DEPTH }),
        r.zoom.layer == RENDER_LAYER_ZOOM,
        (r.minimap.viewport, r.minimap.projection) == minimap_config_result(w),
        r.minimap.order == MINIMAP_CAMERA_ORDER,
        r.minimap.translation == (Translation { x: 0, y: 0, z: MINIMAP_CAMERA_DEPTH }),
        r.minimap.layer == RENDER_LAYER_MINIMAP,
        is_sprite_field(r.sprites@),
{
    let (viewport, projection) = zoom_config(w, h);
    let zoom = CameraSpec {
        order: ZOOM_CAMERA_ORDER,
        viewport,
        projection,
        translation: Translation { x: 0, y: 0, z: ZOOM_CAMERA_DEPTH },
        layer: RENDER_LAYER_ZOOM,
    };
    let (viewport, projection) = minimap_config(w, h);
    let minimap = CameraSpec {
        order: MINIMAP_CAMERA_ORDER,
        viewport,
        projection,
        translation: Translation { x: 0, y: 0, z: MINIMAP_CAMERA_DEPTH },
        layer: RENDER_LAYER_MINIMAP,
    };
    let mut rng = seeded_rng(SPRITE_SEED);
    let choices = draw_choices(&mut rng);
    let sprites = sprite_grid(&choices);
    SceneLayout { zoom, minimap, sprites }
}

} // verus!
