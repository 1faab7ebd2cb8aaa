//! Verified helpers around the Zephyr device, firmware-update and FAT-filesystem APIs.
pub mod text;
pub mod dfu;
pub mod fs;
pub mod device;
