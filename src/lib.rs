//! Widget logic for a small UI toolkit: checkbox and button state machines
//! driven by pointer interaction, and the visual state derived from them.

pub mod interaction;
pub mod checkbox;
pub mod icon;
pub mod button;
pub mod composite;
