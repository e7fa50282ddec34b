use vstd::prelude::*;

verus! {

/// A two-part key, (scope, name), naming a task, an event type or a handler
/// registration.
pub type Identifier = (String, String);

/// The mathematical value of an identifier.
pub type IdModel = (Seq<char>, Seq<char>);

/// Builds the identifier `(scope, name)`.
pub fn identifier(scope: &str, name: &str) -> (r: Identifier)
    ensures
        r@ == (scope@, name@),
{
    (scope.to_owned(), name.to_owned())
}

/// Structural equality of two identifiers.
pub fn same_id(a: &Identifier, b: &Identifier) -> (r: bool)
    ensures
        r == (a@ == b@),
{
    a.0 == b.0 && a.1 == b.1
}

} // verus!
