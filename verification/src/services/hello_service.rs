//! The greeting service.
use vstd::prelude::*;

verus! {

/// Greets.
pub trait HelloService {
    fn hello_world(&self) -> (res: String)
        ensures
            res@ == "Hello, World"@,
    ;
}

/// The greeting service.
#[derive(Clone)]
pub struct HelloServiceImpl {}

impl HelloServiceImpl {
    pub fn new() -> (res: Self) {
        HelloServiceImpl {  }
    }
}

impl HelloService for HelloServiceImpl {
    fn hello_world(&self) -> (res: String) {
        "Hello, World".to_owned()
    }
}

} // verus!
