use vstd::prelude::*;

verus! {

/// A symbolic variable, identified by a number.
#[derive(Clone, Copy, Debug, Default, PartialEq, Eq, Hash, Structural)]
pub struct Variable(pub usize);

impl Variable {
    pub fn new(id: usize) -> (v: Variable)
        ensures
            v.0 == id,
    {
        Variable(id)
    }

    pub fn as_raw(&self) -> (id: usize)
        ensures
            id == self.0,
    {
        self.0
    }
}

} // verus!
