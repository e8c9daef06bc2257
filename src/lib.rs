pub mod error;
pub mod pool;
pub mod pricing;
pub mod sqrt;
