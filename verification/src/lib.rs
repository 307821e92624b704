pub mod input;
pub mod interaction;
pub mod lights;
pub mod mesh;
pub mod model_panel;
pub mod object_controls;
pub mod particle;
pub mod pixels;
pub mod rng;
pub mod scene;
