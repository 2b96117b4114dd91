//! A hybrid frame composer for a textured, depth-tested 3D cube with a 2D
//! text overlay.
//!
//! The crate holds the design content of the renderer as verified logic over
//! plain values: camera parameters and matrices are carried as the IEEE-754
//! bit patterns of their `f32` entries, cube geometry as small integers, GPU
//! pipeline configuration as plain descriptor structs, and the per-frame
//! render sequence as a checked state machine that emits an explicit command
//! list. A thin unverified shell performs the actual floating-point matrix
//! math and drives the GPU with the descriptors and commands produced here.

pub mod camera;
pub mod frame;
pub mod mesh;
pub mod pipeline;
pub mod scene;
pub mod screen;
pub mod uniform;
