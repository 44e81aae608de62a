//! Register-map configuration and handle lifecycle for device drivers.
//!
//! A driver describes its register layout with [`RegmapConfig`], projects it
//! into the flat layout that the register-map engine consumes
//! ([`RegmapConfig::to_binding`] and [`RegmapConfig::native_config`]), and
//! keeps the engine's handle in a [`Regmap`] until it is torn down.

pub mod config;
pub mod error;
pub mod layout;
pub mod regmap;

pub use config::{
    RegDefault, RegcacheType, RegmapAccessTable, RegmapConfig, RegmapEndian, RegmapRange,
    RegmapRangeConfig,
};
pub use error::{read_result, to_result, Error};
pub use layout::{NativeAccessTable, NativeConfig, NativeRangeCfg, RegmapConfigBindings};
pub use regmap::{Lifecycle, Regmap, TeardownAction};
