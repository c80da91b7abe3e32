//! A screen-capture frame pipeline: validation of delivered samples,
//! extraction of planar pixel data into owned memory under a scoped
//! buffer lock, and best-effort delivery of the resulting frames to a
//! consumer through a channel.

pub mod frame;
pub mod sample;
pub mod validate;
pub mod extract;
pub mod capture;
pub mod laws;
pub mod version;
