//! Verified core of the ColdFusion STL viewer: loading an STL mesh, laying it
//! out as GPU vertex and index buffers, and the frame-rate bookkeeping of the
//! user interface.

pub mod stats;
pub mod stl;
pub mod mesh;
