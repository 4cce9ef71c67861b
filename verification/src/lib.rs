//! Verified core of an emoji image pipeline for a chat bot.
//!
//! The library recognises custom-emoji references in message text, builds the
//! canonical CDN URLs for them, resizes still images under a set of discrete
//! size tiers, converts animated WebP input into looping GIF under byte-size
//! ceilings, composes two emoji images side by side, and keeps the per-guild
//! policy store that gates and parametrises all of the above.
//!
//! Network fetches and the durable document store live outside this crate;
//! every function here works on plain values (bytes, strings, integers) and
//! carries a contract checked by Verus.

pub mod asset;
pub mod autosend;
pub mod compose;
pub mod emoji_ref;
pub mod guild_config;
pub mod img_codec;
pub mod resize;
pub mod sizing;
pub mod text;
pub mod webp;
