//! Typed snowflake identifiers and 64-bit permission sets, with a shared
//! numeric adapter that negotiates the string-or-integer wire shapes used by
//! JSON producers.
//!
//! Both entity families serialize as decimal strings so that consumers with
//! limited-precision number types never corrupt values above 2^53.

pub mod builder;
pub mod id;
pub mod numeric;
pub mod permissions;
pub mod timestamp;
