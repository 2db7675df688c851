//! Greeting values through a common trait, statically or dynamically
//! dispatched, and a generic length taker.
//!
//! The greeters compose their message and hand it back; printing it is the
//! caller's business.

use vstd::prelude::*;
use vstd::string::StringSliceAdditionalSpecFns;
use vstd::string::StringExecFns;

verus! {

/// The byte length of the text.
pub fn strlen(s: &str) -> (n: usize)
    ensures
        n == s.spec_bytes().len() as usize,
{
    s.len()
}

/// Something that can greet with its own name.
#[allow(non_snake_case)]
pub trait SayHello {
    /// The name the greeting addresses.
    spec fn spec_name(&self) -> Seq<char>;

    /// The greeting, addressed to this value's name.
    fn sayHello(&self) -> (greeting: String)
        ensures
            greeting@ == "Hello, "@ + self.spec_name(),
    ;
}

impl SayHello for &str {
    open spec fn spec_name(&self) -> Seq<char> {
        self@
    }

    #[allow(non_snake_case)]
    fn sayHello(&self) -> (greeting: String) {
        let mut greeting = String::from_str("Hello, ");
        greeting.append(self);
        greeting
    }
}

impl SayHello for String {
    open spec fn spec_name(&self) -> Seq<char> {
        self@
    }

    #[allow(non_snake_case)]
    fn sayHello(&self) -> (greeting: String) {
        let mut greeting = String::from_str("Hello, ");
        greeting.append(self.as_str());
        greeting
    }
}

/// Greets the given value; which greeting is composed is picked at compile
/// time from the value's type.
#[allow(non_snake_case)]
pub fn sayHello<E: SayHello>(entity: &E) -> (greeting: String)
    ensures
        greeting@ == "Hello, "@ + entity.spec_name(),
{
    entity.sayHello()
}

} // verus!
