//! Host-side logic of a shader render pipeline: pixel formats per bit depth,
//! row layout of GPU readback buffers, the per-sequence resource cache and the
//! scene loader's state machine.

pub mod format;
pub mod layout;
pub mod cache;
pub mod scene;
pub mod frame;
pub mod input;
