//! Frame acquisition and calibration-sample capture for a live camera
//! calibration tool.

pub mod capture;
pub mod channel;
pub mod controller;
pub mod frame;
pub mod render;
pub mod samples;
pub mod session;
pub mod session_laws;
pub mod solver;
pub mod target;
