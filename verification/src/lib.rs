//! Layered decoding of captured Ethernet frames into structured records.

pub mod addresses;
pub mod laws;
pub mod layer_2_infos;
pub mod notes;
pub mod text;
pub mod wire;
