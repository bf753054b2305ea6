//! Daemons around llama.cpp servers and llamafiles.

pub mod daemon;
pub mod daemon2;
pub mod daemon3;
pub mod llamafile;
