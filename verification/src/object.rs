use vstd::prelude::*;

verus! {

/// The two-operation contract every annotation mechanism's handle satisfies:
/// it reports the label it was annotated with, and hands back the borrowed
/// underlying value unchanged.
pub trait Object {
    /// The label the handle reports.
    spec fn spec_label(&self) -> Seq<char>;

    /// The underlying value the handle gives access to.
    spec fn spec_value(&self) -> Seq<char>;

    /// Label lookup.
    fn label(&self) -> (r: &str)
        ensures
            r@ == self.spec_label(),
    ;

    /// Value lookup.
    fn as_string(&self) -> (r: &String)
        ensures
            r@ == self.spec_value(),
    ;
}

} // verus!
