//! Turns a raster image into coloured text art: every pixel becomes one symbol
//! of a fixed brightness ramp, drawn in the pixel's own colour.

pub mod ascii;
pub mod density;
pub mod ramp;
pub mod raster;
pub mod render;
pub mod vid;
