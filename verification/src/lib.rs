//! A minimal interactive 2D scene: one sprite entity (the player) whose
//! transform reacts, once per frame, to mouse input. Holding the left or
//! right mouse button rotates the sprite, mouse-motion events translate it,
//! and mouse-wheel events resize it multiplicatively.
//!
//! All scalar state is kept as exact rational numbers, so every reaction
//! rule is stated and proved precisely: no rounding enters the model.

pub mod laws;
pub mod rational;
pub mod scene;
