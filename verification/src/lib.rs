//! A photo-recoloring engine: palettes are grown from a handful of seed
//! colors, bounded in size, and every pixel of an image is replaced by its
//! nearest palette entry under a luma-weighted distance.

pub mod accent;
pub mod closest;
pub mod color;
pub mod compute;
pub mod condense;
pub mod dedup;
pub mod guide;
pub mod pallets;
pub mod processors;
pub mod raster;
pub mod spectrum;
