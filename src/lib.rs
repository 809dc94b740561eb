//! Direct3D 11 texture policy, the keyed-mutex handshake that hands a shared
//! texture between two rendering subsystems, and the row-pitch-aware read-back
//! of a mapped staging surface.
pub mod d3d;
pub mod keyed_mutex;
pub mod readback;
