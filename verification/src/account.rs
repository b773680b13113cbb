use vstd::prelude::*;

verus! {

/// Whether a sequence of characters forms a well-formed account identifier.
/// The judgment is the hosting platform's; contracts refer to it by this name
/// and never decide it themselves.
pub uninterp spec fn account_valid(s: Seq<char>) -> bool;

/// Relies on `near_sdk::AccountId::validate`: it accepts or rejects an
/// identifier by its characters alone (lowercase alphanumerics in chunks
/// separated by single `-`, `_` or `.`, two to sixty-four bytes long), so the
/// verdict is a function of the string and of nothing else.
#[verifier::external_body]
pub(crate) fn account_id_is_valid(s: &String) -> (r: bool)
    ensures
        r == account_valid(s@),
{
    near_sdk::AccountId::validate(s.as_str()).is_ok()
}

} // verus!
