//! ACPI CPU hotplug for a virtual machine monitor.
//!
//! * [`controller`]: the device behind the hotplug registers, with one state per vCPU.
//! * [`aml`]: AML objects, as bytes.
//! * [`cpu_aml`]: the AML that describes the controller and the vCPUs to the guest.
//! * [`guest`]: what the guest does when it runs the methods of the vCPUs.
//! * [`manager`]: the ACPI devices of one machine, and the event device that they share.
//! * [`config`]: the values that the hotplug API takes and returns.
//! * [`reader`]: how a guest reads the tables.
//! * [`request`]: what a hotplug API request asks for, and how it is counted.
//! * [`tables`]: what a guest reads in the tables.
//! * [`bytes`]: little-endian integers.
//! * [`behaviour`]: what the operations do, seen from outside.
//! * [`machine`]: what the manager does, seen from outside.
//! * [`laws`]: what holds across several operations.

pub mod aml;
pub mod behaviour;
pub mod bytes;
pub mod config;
pub mod controller;
pub mod cpu_aml;
pub mod guest;
pub mod laws;
pub mod machine;
pub mod manager;
pub mod reader;
pub mod request;
pub mod tables;
