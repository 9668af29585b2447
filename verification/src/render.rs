pub mod camera;
pub mod immediate_render;
