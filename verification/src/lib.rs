//! Pixel data of an image, laid out for embedding in a program.
//!
//! A format name is resolved to one of ten pixel layouts ([`resolve`]), a
//! decoded pixel buffer ([`buffer`]) is converted to that layout
//! ([`convert`]), and the result is the flat sequence of its samples, row by
//! row and channel by channel. [`conversion`] says what a conversion yields
//! and which laws hold of it; [`request`] takes one request from its text to
//! its samples or its failure. The conversions themselves are made by the
//! `image` crate, through [`backend`].

pub mod backend;
pub mod buffer;
pub mod conversion;
pub mod convert;
pub mod layout;
pub mod model;
pub mod request;
pub mod resolve;
