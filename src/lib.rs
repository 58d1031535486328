pub mod audio;
pub mod dma;
pub mod input;
pub mod logging;
pub mod registry;
pub mod render;
pub mod runner;
pub mod save;
pub mod time;
pub mod unpack;
