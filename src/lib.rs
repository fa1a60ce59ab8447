//! Control of a motorised sit-stand desk: the classifier of distance readings, the
//! phase-typed relay motor, the hardware composite, and the debounced control loop.

pub mod desk_actions;
pub mod distance;
pub mod hal;
pub mod hardware_error;
pub mod motion;
pub mod motor;
pub mod settings;
