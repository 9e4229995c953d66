//! Verified fan-control logic for Gigabyte AORUS laptops driven through the
//! `gigabyte-laptop-wmi` kernel driver and the gigabyted D-Bus service.

pub mod fan;
pub mod text;
pub mod sysfs;
pub mod control;
pub mod guarantees;
pub mod service;
