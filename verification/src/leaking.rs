use vstd::prelude::*;

verus! {

/// A label-bearing view of a borrowed string: the wrapper owns the label
/// text and borrows the underlying value, which is never copied or moved.
pub struct Wrapper<'a> {
    pub value: &'a String,
    pub label: String,
}

impl<'a> Wrapper<'a> {
    /// The label this wrapper was annotated with.
    pub fn label(&self) -> (r: &str)
        ensures
            r@ == self.label@,
    {
        self.label.as_str()
    }

    /// The borrowed underlying value, handed back unchanged.
    pub fn as_string(&self) -> (r: &'a String)
        ensures
            r@ == self.value@,
    {
        self.value
    }
}

impl<'a> crate::object::Object for Wrapper<'a> {
    open spec fn spec_label(&self) -> Seq<char> {
        self.label@
    }

    open spec fn spec_value(&self) -> Seq<char> {
        self.value@
    }

    fn label(&self) -> &str {
        self.label.as_str()
    }

    fn as_string(&self) -> &String {
        self.value
    }
}

/// Relies on std's `Box::leak`: the returned reference points at the boxed
/// value, which stays live for the rest of the program (never reclaimed).
#[verifier::external_body]
fn leak_box<'a, T: 'a>(b: Box<T>) -> (r: &'a T)
    ensures
        *r == b,
{
    Box::leak(b)
}

/// Annotate `input` with the label `label`: the wrapper borrows `input`
/// and is deliberately leaked, so the handle lives as long as `input` does.
pub fn annotate<'a>(input: &'a String, label: &str) -> (r: &'a Wrapper<'a>)
    ensures
        r.label@ == label@,
        r.value@ == input@,
{
    leak_box(Box::new(Wrapper { value: input, label: label.to_owned() }))
}

} // verus!
