pub mod sample;
pub mod simulation;
pub mod platform;
pub mod monitor;
pub mod relay;
pub mod commands;
pub mod binding;
