//! The greeting service: a hello and an echo.

use vstd::prelude::*;

verus! {

/// The stateless greeting service.
#[derive(Debug, Default)]
pub struct GreeterService;

impl GreeterService {
    /// `Hello {name}!`.
    pub fn say_hello(&self, name: &str) -> (r: String)
        ensures
            r@ == "Hello "@ + name@ + "!"@,
    {
        let mut r = String::from_str("Hello ");
        r.append(name);
        r.append("!");
        r
    }

    /// The message, unchanged.
    pub fn echo(&self, message: String) -> (r: String)
        ensures
            r == message,
    {
        message
    }
}

} // verus!
