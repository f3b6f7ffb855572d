//! Bring-up and runtime-access layer for a wrist-worn device built around a
//! system-on-chip, a power-management unit, and a small display panel.
//!
//! The library owns the parts with real design decisions: the fixed order of
//! the hardware bring-up steps, the battery-percentage estimation that
//! compensates for a known reporting defect of the power-management unit,
//! the inert output pin that stands in where the board wiring ties a control
//! line permanently active, and the composite device handle. The bus drivers
//! themselves are outside collaborators; platform code performs the bring-up
//! actions in the order this library prescribes.

pub mod battery;
pub mod bringup;
pub mod pin;
pub mod watch;
