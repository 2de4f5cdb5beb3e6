//! Panel layout allocation: partitions a window's screen area among docked
//! side, top, and central panels, declared anew on every frame.
//!
//! The order in which panels are declared matters: side and top panels must
//! be declared before the central panel, which consumes whatever area remains.

pub mod context;
pub mod geom;
pub mod laws;
pub mod panel;
pub mod store;
pub mod ui;
