//! Core of a minimal host-driven 2D engine: the indexed-bitmap asset
//! pipeline, palette expansion, a fixed-point simulation clock, and the
//! per-frame update/render cycle, which records backend commands for the host.

pub mod backend;
pub mod bitmap;
pub mod clock;
pub mod components;
pub mod constants;
pub mod engine;
pub mod palette;
pub mod texture;
