//! The connection settings of the persistent store. The surrounding
//! application fills this from its environment and opens the connection;
//! the library only defines the shape.

use vstd::prelude::*;

verus! {

#[allow(non_snake_case)]
pub struct Config {
    pub URL: String,
    pub USER: String,
    pub PASS: String,
    pub NS: String,
    pub DB: String,
}

} // verus!
