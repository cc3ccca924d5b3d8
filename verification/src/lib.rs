//! Retro stylisation of raster images: an image is shrunk into coarse blocks,
//! every block is recoloured with the nearest entry of a fixed named palette,
//! and the result is enlarged back to the size it started with.

pub mod catalog;
pub mod cli;
pub mod color;
pub mod error;
pub mod matcher;
pub mod palette;
pub mod pipeline;
pub mod quantize;
pub mod raster;
pub mod registry;
pub mod resample;
