pub mod config;
pub mod decimal;
pub mod dispatch;
pub mod error;
pub mod fit;
pub mod iterm;
pub mod offset;
pub mod probe;
pub mod raster;
