//! Core logic of the radar station: object categories, field reference
//! points, the choice of which armour plate names a car, the application
//! configuration, the event payloads and the frame format of the image stream.

pub mod cal;
pub mod calculate;
pub mod common;
pub mod share;
pub mod srv;
pub mod device;
