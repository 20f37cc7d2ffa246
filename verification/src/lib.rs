//! Host-side logic of a virtualization host service: its configuration model,
//! the decisions of its MQTT session, its libvirt setup sequence, the reports
//! it derives from hypervisor and domain data, the registry of guest
//! connections over Unix sockets, and the accumulation of downloaded data.

pub mod config;
pub mod guests;
pub mod hypervisor;
pub mod libvirt_setup;
pub mod mqtt;
pub mod transfer;
