//! Device/queue selection, memory-type selection and the cross-queue
//! synchronization protocol of a minimal accelerator workload: clear an image
//! on a compute-capable queue, hand it to a transfer-capable queue, and copy
//! it into a host-visible buffer.
//!
//! Everything here works on plain values that describe the hardware (flag
//! masks, indices, handles as integers). The code that talks to the driver
//! hands these values in and performs the commands that come out.

pub mod allocator;
pub mod device;
pub mod errors;
pub mod lifetime;
pub mod memory;
pub mod pools;
pub mod queue;
pub mod replay;
pub mod resources;
pub mod submit;
pub mod sync;
pub mod utility;
pub mod version;
