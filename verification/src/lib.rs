//! A verified GPU-resource management layer: compiling shader source into
//! linked programs and uploading decoded image data into GPU textures, with
//! every resource bound to a graphics-context ledger that tracks which GPU
//! objects are alive, which program is current, and which calls were issued.

pub mod context;
pub mod error;
pub mod params;
pub mod program;
pub mod shader;
pub mod stage;
pub mod texture;
