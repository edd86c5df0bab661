//! A content-addressed cache of resized, upright image derivatives: size
//! buckets, cache file names from content digests, Exif orientation and its
//! correction, and the decisions of rendering a derivative.

pub mod cache_key;
pub mod derivative;
pub mod events;
pub mod exif_orientation;
pub mod orient;
pub mod pixels;
pub mod stat;
pub mod target;
pub mod threshold;
