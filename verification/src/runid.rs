//! Per-run output file naming. Each run names its file after a freshly
//! generated ULID, a globally unique and lexicographically sortable
//! identifier, so no two runs collide on a file name.

use vstd::prelude::*;

verus! {

/// Declares ulid::Ulid, the identifier type of the ulid crate, so that it
/// can pass between the two calls below; nothing of its inside is assumed.
#[verifier::external_type_specification]
#[verifier::external_body]
pub struct ExUlid(ulid::Ulid);

/// Relies on ulid::Ulid::generate: a fresh identifier drawn from the clock
/// and a random source. Nothing can be promised of its value.
#[verifier::external_body]
fn ulid_generate() -> ulid::Ulid {
    ulid::Ulid::generate()
}

/// Relies on ulid::Ulid::to_string: the Crockford base32 text of the
/// identifier, always exactly 26 characters.
#[verifier::external_body]
fn ulid_text(u: &ulid::Ulid) -> (r: String)
    ensures
        r@.len() == 26,
{
    u.to_string()
}

/// The file name for this run's output: a fresh 26-character run
/// identifier suffixed with `_picklists.csv`.
pub fn output_file_name() -> (r: String)
    ensures
        r@.len() == 40,
        r@.subrange(26, 40) == "_picklists.csv"@,
{
    let id = ulid_generate();
    let text = ulid_text(&id);
    let r = text.concat("_picklists.csv");
    proof {
        reveal_strlit("_picklists.csv");
        assert(r@.subrange(26, 40) =~= "_picklists.csv"@);
    }
    r
}

} // verus!
