use vstd::prelude::*;

verus! {

/// What the logger relies on of an ambient timestamp: it is non-empty, and it
/// stays inside one bracketed field of a line, holding no newline and no
/// bracket character.
pub open spec fn timestamp_chars(ts: Seq<char>) -> bool {
    ts.len() > 0 && forall|i: int|
        0 <= i < ts.len() ==> ts[i] != '\n' && ts[i] != '[' && ts[i] != ']'
}

/// Relies on `chrono::Local::now` and `DateTime::format` with the pattern
/// `%Y-%m-%d %H:%M:%S%.3f %Z`: chrono renders every field of that pattern
/// with digits, signs, spaces, dashes, colons and a dot (for `%Z` it prints
/// the numeric zone offset), so the result is non-empty and free of newlines
/// and brackets.  If the wall clock cannot be read, the call aborts: a clock
/// failure is fatal.
#[verifier::external_body]
pub(crate) fn local_timestamp() -> (r: String)
    ensures
        timestamp_chars(r@),
{
    chrono::Local::now().format("%Y-%m-%d %H:%M:%S%.3f %Z").to_string()
}

} // verus!
