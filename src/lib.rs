//! Ordered dithering of RGBA8 images, with thin verified front ends over
//! a post-quantum key-encapsulation and signature implementation.
pub mod dither;
pub mod pq;
