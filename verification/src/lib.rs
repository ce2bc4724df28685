pub mod backends;
pub mod constants;
pub mod domain;
pub mod ffb_packet;
pub mod protocol;
pub mod vjoy;
pub mod text;
pub mod config;
pub mod feeder;
pub mod diagnostics;
pub mod inputs;
pub mod profile;
pub mod frontends;
pub mod summary;
pub mod editor;
