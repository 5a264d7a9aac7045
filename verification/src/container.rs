//! Container formats that multiplex several inner compression algorithms:
//! each module identifies the inner codec eagerly while sniffing, alongside
//! the usual `matches` / `size` pair.

pub mod atc;
pub mod dds;
pub mod heif;
pub mod pkm;
pub mod pvrtc;
