use vstd::prelude::*;

verus! {

/// What `str::to_uppercase` makes of a string.
pub uninterp spec fn upper_of(s: Seq<char>) -> Seq<char>;

/// Relies on `str::to_uppercase`: the upper-case form of a string, which
/// depends on its characters alone.
#[verifier::external_body]
pub(crate) fn to_upper(s: &str) -> (r: String)
    ensures
        r@ == upper_of(s@),
{
    s.to_uppercase()
}

/// Identifier of the persisted (table-backed) class of a table.
pub open spec fn persisted_name(t: Seq<char>) -> Seq<char> {
    upper_of(t)
}

/// Identifier of the field-only base class of a table.
pub open spec fn base_name(t: Seq<char>) -> Seq<char> {
    upper_of(t) + "_Base"@
}

/// Identifier of the partial-update class of a table.
pub open spec fn update_name(t: Seq<char>) -> Seq<char> {
    upper_of(t) + "_Update"@
}

} // verus!
