//! Fixed foveated rendering through variable-rate shading.
//!
//! One layer watches the headset runtime and publishes, per eye image, where
//! the optical centre lies. A second layer watches the graphics API, finds
//! those images again, and attaches a shading-rate map that is full rate at
//! the optical centre and coarser towards the edge. This crate holds the data
//! and the decisions of both layers; handles, entry points and `pNext` chains
//! are plain integers here, and a real number is its binary32 bit pattern.

pub mod binary32;
pub mod config;
pub mod device;
pub mod dispatch;
pub mod foveation;
pub mod kill_switch;
pub mod legacy;
pub mod logging;
pub mod mv_check;
pub mod pipeline;
pub mod rate;
pub mod registry;
pub mod render_pass;
pub mod rendering;
pub mod shared;
pub mod table;
pub mod test_app;
pub mod text;
pub mod upload;
pub mod vk;
pub mod wire;
pub mod xr_layer;

pub use config::{Config, HmdOverride, Profile};
pub use foveation::{tile_rate, FoveationMap};
pub use rate::ShadingRate;
pub use wire::{FalloffParams, FoveationDesc, RateCode, FFR_SHARED_MAGIC, FFR_SHARED_VERSION};
