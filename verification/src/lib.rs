//! Verified core of a small "visual juice" effects demo: phase arithmetic
//! for tick-driven oscillation, packed-RGBA color scaling, and the
//! effect-selection state stepped by gamepad input. Everything that talks
//! to the host engine (drawing, camera, input polling) lives outside this
//! library and only consumes the values computed here.

pub mod color;
pub mod effects;
pub mod osc;
