//! The greeting repository.
use vstd::prelude::*;

verus! {

/// Greets.
pub trait HelloRepository {
    fn hello_world(&self) -> (res: String)
        ensures
            res@ == "Hello, World"@,
    ;
}

/// The greeting repository.
pub struct HelloRepositoryImpl {}

impl HelloRepositoryImpl {
    pub fn new() -> (res: Self) {
        HelloRepositoryImpl {  }
    }
}

impl Default for HelloRepositoryImpl {
    fn default() -> (res: Self)
        ensures
            res == (HelloRepositoryImpl {  }),
    {
        Self::new()
    }
}

impl HelloRepository for HelloRepositoryImpl {
    fn hello_world(&self) -> (res: String) {
        "Hello, World".to_owned()
    }
}

} // verus!
