use vstd::prelude::*;

use crate::model::texts;

verus! {

/// The lines of a text, without their line endings.
pub uninterp spec fn lines_of(s: Seq<char>) -> Seq<Seq<char>>;

/// A text without the whitespace at its start and end.
pub uninterp spec fn trim_of(s: Seq<char>) -> Seq<char>;

/// A text in upper case.
pub uninterp spec fn upper_of(s: Seq<char>) -> Seq<char>;

/// Relies on std's `str::lines`: the lines of the text, in order; the result
/// depends on the text alone.
#[verifier::external_body]
fn split_lines(s: &str) -> (r: Vec<String>)
    ensures
        texts(r@) == lines_of(s@),
{
    s.lines().map(|l| l.to_string()).collect()
}

/// Relies on std's `str::trim`: the text without leading and trailing
/// whitespace; the result depends on the text alone.
#[verifier::external_body]
fn trim_text(s: &str) -> (r: String)
    ensures
        r@ == trim_of(s@),
{
    s.trim().to_string()
}

/// Relies on std's `str::to_uppercase`: the text in upper case; the result
/// depends on the text alone.
#[verifier::external_body]
fn upper_text(s: &str) -> (r: String)
    ensures
        r@ == upper_of(s@),
{
    s.to_uppercase()
}

/// The recognized country codes listed in `content`: each line, trimmed.
pub open spec fn codes_in(content: Seq<char>) -> Seq<Seq<char>> {
    lines_of(content).map_values(|l: Seq<char>| trim_of(l))
}

/// Reads the list of recognized country codes: one per line, trimmed.
pub fn read_country_codes(content: &str) -> (r: Vec<String>)
    ensures
        texts(r@) == codes_in(content@),
{
    let lines = split_lines(content);
    let ghost ls = lines_of(content@);
    let mut r: Vec<String> = Vec::new();
    let mut i: usize = 0;
    while i < lines.len()
        invariant
            i <= lines.len(),
            texts(lines@) == ls,
            ls == lines_of(content@),
            r@.len() == i,
            forall|k: int| 0 <= k < i ==> #[trigger] r@[k]@ == trim_of(ls[k]),
        decreases lines.len() - i,
    {
        assert(lines@[i as int]@ == ls[i as int]);
        r.push(trim_text(lines[i].as_str()));
        i = i + 1;
    }
    assert(texts(r@) =~= codes_in(content@));
    r
}

/// Whether `code` is one of `valid`.
pub fn contains_code(valid: &Vec<String>, code: &String) -> (r: bool)
    ensures
        r == texts(valid@).contains(code@),
{
    let mut i: usize = 0;
    while i < valid.len()
        invariant
            i <= valid.len(),
            forall|k: int| 0 <= k < i ==> valid@[k]@ != code@,
        decreases valid.len() - i,
    {
        if valid[i] == *code {
            assert(texts(valid@)[i as int] == code@);
            return true;
        }
        i = i + 1;
    }
    assert(!texts(valid@).contains(code@)) by {
        if texts(valid@).contains(code@) {
            let k = choose|k: int| 0 <= k < texts(valid@).len() && texts(valid@)[k] == code@;
            assert(valid@[k]@ == code@);
        }
    }
    false
}

/// The country code given by the user, in upper case: `Ok` when it is one of
/// `valid`, `Err` when it is not recognized.
pub fn check_country_code(valid: &Vec<String>, input: &str) -> (r: Result<String, String>)
    ensures
        r is Ok <==> texts(valid@).contains(upper_of(input@)),
        match r {
            Ok(c) => c@ == upper_of(input@),
            Err(c) => c@ == upper_of(input@),
        },
{
    let code = upper_text(input);
    if contains_code(valid, &code) {
        Ok(code)
    } else {
        Err(code)
    }
}

} // verus!
