//! The process configuration the library's core needs: the token-signing
//! secret. The surrounding application loads it from its environment once at
//! startup and hands it in; a missing value fails startup, never a request.

use vstd::prelude::*;

verus! {

#[allow(non_snake_case)]
pub struct Config {
    pub JWT_SECRET: String,
}

} // verus!
