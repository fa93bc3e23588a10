//! A camera preview overlay: the geometry of the preview window, the pixel
//! format of its frame buffer, the shared state that the commands and the
//! render loop meet in, and the decisions of the loop itself.

pub mod capture;
pub mod geometry;
pub mod overlay;
pub mod pixel;
pub mod resample;
pub mod shared;
