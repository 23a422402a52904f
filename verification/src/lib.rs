//! Verified core of a Rust binding layer for the RED4ext plugin SDK.
//!
//! The library holds the logic that the bindings compute for themselves:
//! the FNV-1a hashes that identify names in the game's RTTI, resource path
//! normalisation, the rendering of RTTI type names, the validation of a call
//! against a function signature, and the plain data types that carry these.

pub mod class;
pub mod cname;
pub mod conv;
pub mod downcast;
pub mod export;
pub mod hash;
pub mod interop;
pub mod invocable;
pub mod mangle;
pub mod plugin;
pub mod res;
pub mod rtti;
pub mod text;
pub mod types;
