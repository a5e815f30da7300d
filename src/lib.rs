//! Resource caches for a rendering pipeline: files, decoded images and fonts,
//! with stable identities and a log of the external keys handed out.

pub mod codec;
pub mod data_uri;
pub mod files;
pub mod font_cache;
pub mod fonts;
pub mod group;
pub mod ids;
pub mod images;
pub mod shaping;
pub mod shared;
pub mod updates;
