//! Picks a random JPEG or PNG image out of a directory listing and plans the
//! desktop settings updates that make it the wallpaper.

pub mod apply;
pub mod error;
pub mod image;
pub mod select;

pub use apply::{change_wallpaper, Applier, SettingsCommand};
pub use error::WallpaperError;
pub use image::{is_image_ext, is_image_name};
pub use select::{image_candidates, select_entry, select_wallpaper, Entry};
