//! Text helpers shared by the modules, and the trusted calls that std and
//! serde_json make on text.
use vstd::prelude::*;

verus! {

/// What `str::to_lowercase` returns on the given characters.
pub uninterp spec fn lower_of(s: Seq<char>) -> Seq<char>;

/// Relies on `str::to_lowercase`: the result depends on the characters alone.
#[verifier::external_body]
pub(crate) fn lowercase(s: &str) -> (r: String)
    ensures
        r@ == lower_of(s@),
{
    s.to_lowercase()
}

/// What `serde_json::to_string` returns on a string: its JSON string literal.
pub uninterp spec fn json_string_of(s: Seq<char>) -> Seq<char>;

/// Relies on `serde_json::to_string` on a `str`, which writes the quoted and
/// escaped literal into a `Vec<u8>`; that writer never fails, so the error arm
/// is never taken.
#[verifier::external_body]
pub(crate) fn json_quote(s: &str) -> (r: String)
    ensures
        r@ == json_string_of(s@),
{
    match serde_json::to_string(s) {
        Ok(t) => t,
        Err(_) => String::new(),
    }
}

/// The lines of `ps` joined with a newline between each two.
pub open spec fn join_lines(ps: Seq<Seq<char>>) -> Seq<char>
    decreases ps.len(),
{
    if ps.len() == 0 {
        Seq::empty()
    } else if ps.len() == 1 {
        ps[0]
    } else {
        join_lines(ps.drop_last()) + "\n"@ + ps.last()
    }
}

/// Joins the strings of `ps` with a newline between each two.
pub fn join_with_newlines(ps: &Vec<String>) -> (r: String)
    ensures
        r@ == join_lines(ps.deep_view()),
{
    let mut out = String::new();
    let mut i: usize = 0;
    while i < ps.len()
        invariant
            i <= ps.len(),
            out@ == join_lines(ps.deep_view().subrange(0, i as int)),
        decreases ps.len() - i,
    {
        let ghost prev = ps.deep_view().subrange(0, i as int);
        let ghost next = ps.deep_view().subrange(0, i as int + 1);
        assert(next.drop_last() =~= prev);
        assert(next.last() == ps[i as int]@);
        if i > 0 {
            out.append("\n");
        }
        out.append(ps[i].as_str());
        i = i + 1;
    }
    assert(ps.deep_view().subrange(0, ps.len() as int) =~= ps.deep_view());
    out
}

} // verus!
