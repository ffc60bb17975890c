//! A dynamic DNS client library: domain and template handling, provider
//! request planning, secret storage and the update scheduler's decisions.

pub mod address;
pub mod clock;
pub mod config;
pub mod i18n;
pub mod models;
pub mod network;
pub mod profiles;
pub mod providers;
pub mod resolver;
pub mod scheduler;
pub mod status;
pub mod storage;
pub mod text;
pub mod vault;
