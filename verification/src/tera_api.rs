use vstd::prelude::*;

verus! {

#[verifier::external_type_specification]
#[verifier::external_body]
pub struct ExTera(tera::Tera);

#[verifier::external_type_specification]
#[verifier::external_body]
pub struct ExContext(tera::Context);

#[verifier::external_type_specification]
#[verifier::external_body]
pub struct ExTeraError(tera::Error);

/// The variable bindings a render context holds: each key mapped to the
/// text of the value bound to it.
pub uninterp spec fn spec_context_map(c: tera::Context) -> Map<Seq<char>, Seq<char>>;

/// No bindings at all: the map an empty context holds.
pub open spec fn spec_no_bindings() -> Map<Seq<char>, Seq<char>> {
    Map::empty()
}

/// Relies on tera::Context::new: a context over an empty map of bindings.
#[verifier::external_body]
pub(crate) fn context_new() -> (r: tera::Context)
    ensures
        spec_context_map(r) == spec_no_bindings(),
{
    tera::Context::new()
}

/// Relies on tera::Context::insert: binds the key to the value in the
/// context's map, replacing any earlier binding of the same key. For
/// string values the serialization it performs cannot fail.
#[verifier::external_body]
pub(crate) fn context_insert(c: &mut tera::Context, key: &str, value: &str)
    ensures
        spec_context_map(*final(c)) == spec_context_map(*old(c)).insert(key@, value@),
{
    c.insert(key, value)
}

/// Relies on tera::Tera::render: substitutes the named template with the
/// given context, yielding the rendered text, or an error when the
/// template is missing, malformed, or references an unbound variable.
/// Nothing is assumed of the outcome: which it is depends on the
/// templates the engine holds.
#[verifier::external_body]
pub(crate) fn tera_render(
    engine: &tera::Tera,
    template_name: &str,
    context: &tera::Context,
) -> Result<String, tera::Error> {
    engine.render(template_name, context)
}

} // verus!
