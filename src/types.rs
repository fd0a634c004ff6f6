pub mod data;
pub mod device;
pub mod error;
pub mod lazy;
pub mod ops;
