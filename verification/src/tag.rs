//! Field numbers by which a location path names the repeated fields of each
//! container. They are the wire numbers that the descriptor schema gives to
//! those fields.

use vstd::prelude::*;

verus! {

/// Top-level messages of a file.
pub const FILE_MESSAGE_TYPE: i32 = 4;

/// Top-level enums of a file.
pub const FILE_ENUM_TYPE: i32 = 5;

/// Services of a file.
pub const FILE_SERVICE: i32 = 6;

/// Extensions declared at the top level of a file.
pub const FILE_EXTENSION: i32 = 7;

/// Fields of a message.
pub const MESSAGE_FIELD: i32 = 2;

/// Messages nested in a message.
pub const MESSAGE_NESTED_TYPE: i32 = 3;

/// Enums nested in a message.
pub const MESSAGE_ENUM_TYPE: i32 = 4;

/// Oneof declarations of a message.
pub const MESSAGE_ONEOF_DECL: i32 = 8;

/// Methods of a service.
pub const SERVICE_METHOD: i32 = 2;

/// Values of an enum.
pub const ENUM_VALUE: i32 = 2;

} // verus!
