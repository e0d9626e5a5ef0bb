//! AML, the byte code in which ACPI describes devices and methods to a guest.
//!
//! [`grammar`] says which bytes each object is; [`objects`] has them made by the `acpi_tables`
//! crate; [`terms`] puts objects together whose parts are known only as bytes.

pub mod grammar;
pub mod objects;
pub mod terms;
