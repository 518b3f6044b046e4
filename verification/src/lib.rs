//! Core logic of an interactive-process terminal overlay: bounded live-output
//! buffers, an interactive-exec registry, an exec-call aggregator, a wrap-cache
//! pager view, and the terminal overlay lifecycle with its key-to-bytes
//! encoder. All state is in memory; the host performs I/O, drawing and process
//! control around it.

pub mod events;
pub mod exec_cell;
pub mod keys;
pub mod overlay;
pub mod pager;
pub mod registry;
pub mod terminal;
pub mod live_buffer;
pub mod text;
pub mod wrap;
