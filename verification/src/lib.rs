//! Core of a minimal two-paddle ball game driven by a menu.
//!
//! Positions, directions and elapsed time are fixed-point integers so that
//! every rule of the simulation — paddle clamping, ball integration, wall and
//! paddle bounces, goal detection, scoring and the menu/play scene machine —
//! carries a proved contract.  A host shell owns the window, rendering and
//! input devices and hands this crate plain values each frame.

pub mod collision;
pub mod display;
pub mod entities;
pub mod geometry;
pub mod laws;
pub mod opponent;
pub mod physics;
pub mod scene;
