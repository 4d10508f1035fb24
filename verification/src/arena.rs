use vstd::prelude::*;

verus! {

/// A label-bearing view of a borrowed string, owned by a `TypeSystem` arena.
pub struct Wrapper<'a> {
    pub value: &'a String,
    pub label: String,
}

impl<'a> Wrapper<'a> {
    /// The label this wrapper was annotated with.
    pub fn label(&self) -> (r: &str)
        ensures
            r@ == self.label@,
    {
        self.label.as_str()
    }

    /// The borrowed underlying value, handed back unchanged.
    pub fn as_string(&self) -> (r: &'a String)
        ensures
            r@ == self.value@,
    {
        self.value
    }
}

impl<'a> crate::object::Object for Wrapper<'a> {
    open spec fn spec_label(&self) -> Seq<char> {
        self.label@
    }

    open spec fn spec_value(&self) -> Seq<char> {
        self.value@
    }

    fn label(&self) -> &str {
        self.label.as_str()
    }

    fn as_string(&self) -> &String {
        self.value
    }
}

#[verifier::external_type_specification]
#[verifier::external_body]
#[verifier::reject_recursive_types(T)]
pub struct ExArena<T>(typed_arena::Arena<T>);

/// Relies on `typed_arena::Arena::new`: makes a fresh arena.
#[verifier::external_body]
fn arena_new<'a>() -> typed_arena::Arena<Wrapper<'a>> {
    typed_arena::Arena::new()
}

/// Relies on `typed_arena::Arena::alloc`: stores `w` in the arena and returns
/// a reference to the stored copy, valid while the arena is borrowed; the
/// arena frees all stored wrappers together when it is dropped.
#[verifier::external_body]
fn arena_alloc<'s, 'a>(arena: &'s typed_arena::Arena<Wrapper<'a>>, w: Wrapper<'a>) -> (r: &'s Wrapper<'a>)
    ensures
        *r == w,
{
    arena.alloc(w)
}

/// An annotation session: an arena owns every wrapper the session hands out
/// and frees them all together when the session is dropped.
pub struct TypeSystem<'a> {
    wrappers: typed_arena::Arena<Wrapper<'a>>,
}

impl<'a> TypeSystem<'a> {
    /// A fresh session holding no wrappers yet.
    pub fn new() -> Self {
        TypeSystem { wrappers: arena_new() }
    }

    /// Annotate `input` with `label`: allocates a wrapper borrowing `input`
    /// in the session's arena and hands back a reference to it.
    pub fn annotate<'b>(&'b self, input: &'a String, label: &str) -> (r: &'b Wrapper<'a>)
        ensures
            r.label@ == label@,
            r.value@ == input@,
    {
        arena_alloc(&self.wrappers, Wrapper { value: input, label: label.to_owned() })
    }
}

} // verus!
