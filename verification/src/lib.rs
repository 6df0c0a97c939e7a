//! Scene renderer core: the integer and bookkeeping logic of a tiled forward
//! renderer (configuration, surface selection, light and model slot
//! management, buffer layouts, input dispatch), kept apart from the GPU and
//! windowing back ends that carry it out.

pub mod config;
pub mod surface;
pub mod light;
pub mod lighting_system;
pub mod model_system;
pub mod skybox;
pub mod gltf_loader;
pub mod input_instruction;
pub mod events;
