//! A deterministic 2D particle field: mobile water particles repel one
//! another, are confined to a viewport by soft boundary forces, and are
//! pushed away by a steerable ship that projects a grid-shaped repulsion
//! field. All quantities are fixed-point integers in milli-units (one
//! thousandth of a world unit), so every tick is exact integer arithmetic.

pub mod fixed;
pub mod forces;
pub mod laws;
pub mod params;
pub mod ship;
pub mod spawn;
pub mod tick;
pub mod water;
