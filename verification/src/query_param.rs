//! What a client says of itself when it connects.
use vstd::prelude::*;

verus! {

/// The name under which a client wants to take part.
#[derive(Debug)]
pub struct NameRequest {
    name: String,
}

impl View for NameRequest {
    type V = Seq<char>;

    closed spec fn view(&self) -> Seq<char> {
        self.name@
    }
}

impl NameRequest {
    pub fn new(name: String) -> (request: Self)
        ensures
            request@ == name@,
    {
        Self { name }
    }

    /// The name.
    pub fn to_string(&self) -> (name: String)
        ensures
            name@ == self@,
    {
        self.name.clone()
    }
}

} // verus!
