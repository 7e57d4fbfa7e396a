//! Verified core of an SPH (smoothed-particle hydrodynamics) fluid toy:
//! the spatial hash used for neighbour search, the layout of the initial
//! particle grid, the compute-dispatch plan of one physics step, surface
//! sizing and frame handling of the renderer, and the window-event state
//! machines of the interactive front ends.

pub mod dispatch;
pub mod events;
pub mod grid;
pub mod spatial_hash;
pub mod surface;
