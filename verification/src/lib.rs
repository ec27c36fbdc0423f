//! Acquisition and compositing engine for satellite full-disk wallpapers.
//!
//! The library resolves the newest published capture of a geostationary
//! satellite, names the tiles of its mosaic, assembles fetched tiles, and
//! composites the mosaic onto a canvas of the screen's size. Everything here
//! works on plain values; network, files and the desktop are the caller's.

pub mod clock;
pub mod compositor;
pub mod config;
pub mod def;
pub mod downloader;
pub mod mosaic;
pub mod platform;
pub mod raster;
pub mod resolver;
pub mod scaler;
pub mod server;
pub mod text;
