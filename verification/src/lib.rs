//! Host-side core of a screen-space rain glare effect: the per-camera
//! parameter record and its uniform-buffer layout, the per-frame update and
//! snapshot of those records, the per-format pipeline table, the render-graph
//! placement of the effect, and the decision each view's node makes per frame.
//!
//! Every number a shader would read as a 32-bit float is held here as its
//! IEEE 754 binary32 bit pattern in a `u32`.

pub mod format;
pub mod frame;
pub mod graph;
pub mod node;
pub mod pipeline;
pub mod plugin;
pub mod registry;
pub mod seq_facts;
pub mod settings;
pub mod uniforms;

pub use plugin::RainGlarePlugin;
pub use settings::RainGlareSettings;
pub use settings::Vec2;
