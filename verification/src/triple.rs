//! Platform identifiers.

use vstd::prelude::*;

verus! {

/// The identifier of a platform, such as the host that the toolchain manager
/// runs on or the target that a component is built for. Two triples are the
/// same platform exactly when their texts are equal.
#[derive(Debug, Eq)]
pub struct TargetTriple {
    name: String,
}

impl View for TargetTriple {
    type V = Seq<char>;

    /// The text of the identifier.
    closed spec fn view(&self) -> Seq<char> {
        self.name@
    }
}

impl TargetTriple {
    /// The triple with the given text.
    pub fn new(name: &str) -> (triple: TargetTriple)
        ensures
            triple@ == name@,
    {
        TargetTriple { name: String::from_str(name) }
    }

    /// The text of the identifier.
    pub fn as_str(&self) -> (text: &str)
        ensures
            text@ == self@,
    {
        self.name.as_str()
    }
}

impl Clone for TargetTriple {
    fn clone(&self) -> (copy: TargetTriple)
        ensures
            copy@ == self@,
    {
        TargetTriple { name: self.name.clone() }
    }
}

impl PartialEq for TargetTriple {
    fn eq(&self, other: &Self) -> (same: bool) {
        self.name == other.name
    }
}

impl vstd::std_specs::cmp::PartialEqSpecImpl for TargetTriple {
    open spec fn obeys_eq_spec() -> bool {
        true
    }

    open spec fn eq_spec(&self, other: &Self) -> bool {
        self@ == other@
    }
}

} // verus!
