use vstd::prelude::*;

verus! {

/// What `str::trim` returns for the given characters.
pub uninterp spec fn trimmed_of(s: Seq<char>) -> Seq<char>;

/// What `str::to_lowercase` returns for the given characters.
pub uninterp spec fn lower_of(s: Seq<char>) -> Seq<char>;

/// Relies on str::trim: removes leading and trailing whitespace; the
/// result depends on the characters alone.
#[verifier::external_body]
fn trim_str(s: &str) -> (r: String)
    ensures
        r@ == trimmed_of(s@),
{
    s.trim().to_owned()
}

/// Relies on str::to_lowercase: the lowercase equivalent of the string;
/// the result depends on the characters alone.
#[verifier::external_body]
fn lowercase_str(s: &str) -> (r: String)
    ensures
        r@ == lower_of(s@),
{
    s.to_lowercase()
}

/// Whether a normalized answer is the affirmative token: the single
/// character `y`.
pub fn is_affirmative_token(s: &str) -> (r: bool)
    ensures
        r == (s@ == "y"@),
{
    proof {
        reveal_strlit("y");
    }
    if s.unicode_len() == 1 {
        if s.get_char(0) == 'y' {
            assert(s@ =~= "y"@);
            true
        } else {
            assert(s@[0] != "y"@[0]);
            false
        }
    } else {
        assert(s@.len() != "y"@.len());
        false
    }
}

/// Whether one line of terminal input affirms the confirmation prompt:
/// the line, trimmed and lowercased, must be exactly `y`; anything else
/// aborts the update cleanly.
pub fn is_affirmative(line: &str) -> (r: bool)
    ensures
        r == (lower_of(trimmed_of(line@)) == "y"@),
{
    let trimmed = trim_str(line);
    let lowered = lowercase_str(trimmed.as_str());
    is_affirmative_token(lowered.as_str())
}

} // verus!
