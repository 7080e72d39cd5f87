//! Sensor drivers for RTSP cameras and OAK stereo cameras, without the hardware.
//!
//! Everything that a driver decides or computes is here, on plain values: which pipeline is
//! built and what becomes of one that fails half way, which frames are accepted and how they
//! are packed, how times are brought onto one timeline, what is shown of a URL. The calls
//! into the media framework, the GPU and the device are made by a driver around this crate,
//! which performs the actions that these functions name and hands back what came of them.
//!
//! - [`url`], [`rtsp`], [`mp4`]: the network camera and the file writer.
//! - [`open`], [`graph`], [`stereo`], [`source`], [`imu`], [`calib`], [`device`]: the stereo
//!   camera.
//! - [`policy`]: settings, the clock, and the test of a rotation.
//! - [`frame`], [`depth`], [`stamp`]: frames and what travels with them.
//! - [`ieee`], [`text`]: floating-point encodings and text.

pub mod calib;
pub mod depth;
pub mod device;
pub mod frame;
pub mod graph;
pub mod ieee;
pub mod imu;
pub mod mp4;
pub mod open;
pub mod policy;
pub mod rtsp;
pub mod source;
pub mod stamp;
pub mod stereo;
pub mod text;
pub mod url;
