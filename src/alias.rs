use vstd::prelude::*;

verus! {

/// The lowercase form of a string, as `str::to_lowercase` computes it.
pub uninterp spec fn lower_of(s: Seq<char>) -> Seq<char>;

/// Relies on `str::to_lowercase`: its result depends on the characters alone.
#[verifier::external_body]
fn lowercase(s: &str) -> (r: String)
    ensures
        r@ == lower_of(s@),
{
    s.to_lowercase()
}

/// The lookup key of an alias: its lowercase form.
pub fn normalize_alias(alias: &String) -> (r: String)
    ensures
        r@ == lower_of(alias@),
{
    lowercase(alias.as_str())
}

} // verus!
