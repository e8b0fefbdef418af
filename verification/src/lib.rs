//! Embeds source comments of protocol-buffer declarations into descriptor
//! options, so that tools reading the descriptors can show them as docs.
//!
//! - [`descriptor`]: the declaration tree of a descriptor set and its model.
//! - [`tag`]: the field numbers that location paths are made of.
//! - [`path_resolver`]: from a location path to the declaration it names.
//! - [`comments2option`]: attaches the comments of the source-location
//!   table to the declarations, as unknown fields of their options.
//! - [`shape`]: what attaching comments leaves untouched.
//! - [`unknown`]: the unknown-field store of the `protobuf` crate.
//! - [`typing_stub`], [`case`], [`modules`]: typing stubs and the modules
//!   that a compiled set gives.
//! - [`text`]: trimming, prefixes, equality and decimal numbers.

pub mod case;
pub mod comments2option;
pub mod descriptor;
pub mod modules;
pub mod path_resolver;
pub mod shape;
pub mod tag;
pub mod text;
pub mod typing_stub;
pub mod unknown;
