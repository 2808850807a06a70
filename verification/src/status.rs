use vstd::prelude::*;
use vstd::std_specs::cmp::PartialEqSpec;

verus! {

/// What a form needs from the set of states an entity can be in: the full list of
/// states in display order, a label for each, and an equality that is plain identity.
pub trait StatusKind: Copy + PartialEq {
    /// Every state, in display order.
    spec fn every() -> Seq<Self>;

    /// The text shown for a state.
    spec fn spec_label(self) -> Seq<char>;

    /// The list is never empty, holds each state, and holds none twice.
    proof fn every_is_complete()
        ensures
            Self::every().len() > 0,
            forall|s: Self| #[trigger] Self::every().contains(s),
            forall|i: int, j: int|
                0 <= i < j < Self::every().len() ==> Self::every()[i] != Self::every()[j],
    ;

    /// `==` on states tells whether they are the same state.
    proof fn eq_is_identity()
        ensures
            Self::obeys_eq_spec(),
            forall|a: Self, b: Self| #[trigger] a.eq_spec(&b) == (a == b),
    ;

    /// Every state, in display order.
    fn all() -> (r: Vec<Self>)
        ensures
            r@ == Self::every(),
    ;

    /// The text shown for this state.
    fn label(&self) -> (r: &'static str)
        ensures
            r@ == self.spec_label(),
    ;
}

/// Whether two string slices hold the same characters.
pub fn str_eq(a: &str, b: &str) -> (r: bool)
    ensures
        r == (a@ == b@),
{
    let x = String::from_str(a);
    let y = String::from_str(b);
    x == y
}

} // verus!
