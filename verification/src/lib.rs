pub mod amlogic;
pub mod archive;
pub mod bindings;
pub mod boot_image;
pub mod bytes;
pub mod cli;
pub mod config;
pub mod connect;
pub mod error;
pub mod fastboot;
pub mod flash;
pub mod partitions;
pub mod payload;
pub mod storage;
pub mod text;
pub mod usb;
