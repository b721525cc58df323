//! The decisions of a renderer that draws one colored triangle to a window
//! surface: the frame lifecycle (configure, acquire, retry, draw, skip), the
//! description of its single pipeline, and the exact bytes of its mesh.
//! The GPU work itself is left to the caller, which carries out the actions
//! that these functions return.

pub mod vertex;
pub mod pipeline;
pub mod frame;
