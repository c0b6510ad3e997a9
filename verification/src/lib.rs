//! Loading of a transit schedule (service calendars, trips, stop times and
//! stops) from four delimited text files into the four tables of a
//! relational store, all of it or nothing.
//!
//! The crate holds everything that is decided or computed on the way: how a
//! field of text becomes a number or a time of day, how the rows of a file
//! become records, which statements the store is given and with which
//! values, and in which order the steps of a load follow each other.
//! Reading the files and talking to the store are left to the caller, who
//! is led through the load step by step.
//!
//! - [`number`] and [`clock`] read single fields.
//! - [`table`] turns the bytes of a file into a header and rows, with the
//!   csv crate; [`columns`] finds the fields of a record in the header.
//! - [`record`] holds the four kinds of record, [`shape`] says field by
//!   field how each is read and written, and [`decode`] reads whole files.
//! - [`statement`] holds the statements and the values of the store.
//! - [`driver`] decides the steps of a load; [`store`] shows what they do
//!   to a store.
//! - [`error`] names what can go wrong, [`source`] the four files.

pub mod text;
pub mod number;
pub mod clock;
pub mod table;
pub mod source;
pub mod error;
pub mod gather;
pub mod record;
pub mod columns;
pub mod decode;
pub mod shape;
pub mod statement;
pub mod driver;
pub mod store;
