//! A client library for a cloud image and video annotation platform: its data
//! model, the codec of tiled-image levels, and the conversion of exported
//! annotations into import payloads.
pub mod annotation;
pub mod classes;
pub mod client;
pub mod comment;
pub mod config;
pub mod datasets;
pub mod export;
pub mod filter;
pub mod imports;
pub mod item;
pub mod json;
pub mod levels;
pub mod team;
pub mod text;
pub mod workflow;
