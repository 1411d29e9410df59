use vstd::prelude::*;
use vstd::string::*;

verus! {

/// A capability contract: a value that can produce a string greeting
/// for a supplied name.
pub trait Greeter {
    /// The greeting that `greet` returns, as a sequence of characters.
    spec fn greeting(&self, name: Seq<char>) -> Seq<char>;

    /// Produce the greeting for `name`.
    fn greet(&self, name: &str) -> (r: String)
        ensures
            r@ == self.greeting(name@),
    ;
}

/// A greeter that combines a stored prefix with a supplied name into
/// a string of the shape `"<prefix>, <name>!"`.
pub struct Greeting {
    pub prefix: String,
}

impl Greeting {
    /// Build a greeter that holds its own copy of `prefix`.
    pub fn new(prefix: &str) -> (g: Self)
        ensures
            g.prefix@ == prefix@,
    {
        Greeting { prefix: prefix.to_owned() }
    }
}

impl Greeter for Greeting {
    open spec fn greeting(&self, name: Seq<char>) -> Seq<char> {
        self.prefix@ + ", "@ + name + "!"@
    }

    fn greet(&self, name: &str) -> (r: String) {
        let mut r = self.prefix.clone();
        r.append(", ");
        r.append(name);
        r.append("!");
        r
    }
}

} // verus!
