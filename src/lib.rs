//! Engages maximum cooling on a laptop through interchangeable fan-control
//! backends, and checks the outcome against a safety policy.
pub mod model;
pub mod driver;
pub mod manager;
pub mod selection;
pub mod hp;
pub mod hp_wmi;
pub mod windows_power;
