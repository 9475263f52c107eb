//! Oblivious transfer: the extension that turns 128 base transfers of seeds
//! into as many transfers of blocks as are asked for.

pub mod block;
pub mod extension;
pub mod laws;
pub mod utils;
