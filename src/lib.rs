//! Layout of a two-camera scene: a zoom camera that the player pans over a
//! tiled sprite field, and a fixed minimap camera that shows the whole world.
//!
//! The library decides every number of the scene (viewports, projection
//! boxes, sprite placements, camera movement); a host engine only spawns and
//! draws what it is handed.

pub mod viewport;

pub use viewport::{
    minimap_config, zoom_config, zoom_scale, Frac, Projection, ViewportRect, FAR_PLANE,
    MINIMAP_SCREEN_PERCENTAGE, NEAR_PLANE, WORLD_SIZE, ZOOM_OUT_TENTHS,
};

pub mod controls;

pub use controls::{
    apply_key, control, Key, Translation, PAN_STEP, RECENTER_X, RECENTER_Y, RECENTER_Z,
};

pub mod scene;

pub use scene::{
    draw_choices, new_sprite, setup, sprite_grid, texture_for, CameraSpec, SceneLayout,
    SpriteSpec, Texture, GRID_CELLS, GRID_ORIGIN_X, GRID_SIDE, GRID_SPACING, MINIMAP_CAMERA_DEPTH,
    MINIMAP_CAMERA_ORDER, RENDER_LAYER_MINIMAP, RENDER_LAYER_ZOOM, SPRITE_DEPTH, SPRITE_SEED,
    TEXTURE_SIDE, ZOOM_CAMERA_DEPTH, ZOOM_CAMERA_ORDER,
};
