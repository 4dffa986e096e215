//! The engine of a photo gallery: it finds the folders that hold pictures,
//! scales pictures down to thumbnails, and keeps the gallery's state as the
//! results come in.
//!
//! Reading directories and files is left to the caller, who hands over what
//! was read. Everything here is computed from those values.

pub mod app_data;
pub mod codec;
pub mod events;
pub mod folder;
pub mod folder_view;
pub mod known;
pub mod main_view;
pub mod pipeline;
pub mod prober;
pub mod raster;
pub mod scanner;
pub mod thumbnail_view;
pub mod widget;
