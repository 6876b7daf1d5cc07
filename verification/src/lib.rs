//! Control plane for a fleet of lidar acquisition processes and one shared
//! recording process: the sensor registry, the rules that decide when a
//! process is spawned or terminated, and the command lines handed to the
//! operating system.

pub mod command;
pub mod error;
pub mod geography;
pub mod lidar;
pub mod model;
pub mod satellite_server;
pub mod text;
