//! A wallpaper rotation engine: configured glob patterns are expanded into a
//! pool of image paths, the pool is adjusted to the desktop's light/dark
//! preference, and one path is chosen per tick under an ordering policy.
//!
//! The surrounding program supplies the configuration record, queries the
//! desktop appearance, and applies the chosen path; everything that decides
//! *which* path is chosen lives here.

pub mod apply;
pub mod config;
pub mod expand;
pub mod pool;
pub mod scheme;
pub mod select;
pub mod tick;
