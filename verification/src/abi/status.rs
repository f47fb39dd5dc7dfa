//! ABI status codes returned from every host function as `i32`.
use vstd::prelude::*;

verus! {

/// Call completed successfully.
pub const OK: i32 = 0;

/// Unknown or unimplemented function.
pub const ERR_UNKNOWN_FN: i32 = 1;

/// An argument is outside its valid range.
pub const ERR_INVALID_ARG: i32 = 2;

/// The hardware resource is temporarily busy.
pub const ERR_BUSY: i32 = 3;

/// Insufficient memory to fulfil the request.
pub const ERR_NO_MEM: i32 = 4;

/// A pointer + length pair would access memory outside the Wasm sandbox.
pub const ERR_BOUNDS: i32 = 5;

} // verus!
