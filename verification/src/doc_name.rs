use vstd::prelude::*;

verus! {

/// A character the naming rule accepts: an ASCII letter, an ASCII digit,
/// a dash or an underscore. This is the alphabet the id generator draws from.
pub open spec fn is_name_char(c: char) -> bool {
    let u = c as u32;
    (48 <= u && u <= 57) || (65 <= u && u <= 90) || (97 <= u && u <= 122) || u == 45 || u == 95
}

/// The naming rule for document identifiers: non-empty, and every character
/// an ASCII letter, digit, dash or underscore.
pub open spec fn valid_doc_name(s: Seq<char>) -> bool {
    s.len() > 0 && forall|i: int| 0 <= i < s.len() ==> is_name_char(s[i])
}

fn is_name_char_exec(c: char) -> (r: bool)
    ensures
        r == is_name_char(c),
{
    let u = c as u32;
    (48 <= u && u <= 57) || (65 <= u && u <= 90) || (97 <= u && u <= 122) || u == 45 || u == 95
}

/// Decides the naming rule for a caller-supplied or generated document id.
pub fn validate_doc_name(doc_name: &str) -> (r: bool)
    ensures
        r == valid_doc_name(doc_name@),
{
    let len = doc_name.unicode_len();
    if len == 0 {
        return false;
    }
    let mut i: usize = 0;
    while i < len
        invariant
            0 <= i <= len,
            len == doc_name@.len(),
            len > 0,
            forall|j: int| 0 <= j < i ==> is_name_char(doc_name@[j]),
        decreases len - i,
    {
        if !is_name_char_exec(doc_name.get_char(i)) {
            return false;
        }
        i += 1;
    }
    true
}

/// Relies on nanoid::format with the URL-safe alphabet and the default secure
/// random source: the result has exactly the requested number of characters,
/// each drawn from that alphabet (ASCII letters, digits, '-' and '_').
#[verifier::external_body]
fn random_id_chars() -> (r: String)
    ensures
        r@.len() == 21,
        forall|i: int| 0 <= i < r@.len() ==> is_name_char(r@[i]),
{
    nanoid::format(nanoid::rngs::default, &nanoid::alphabet::SAFE, 21)
}

/// Generates a fresh randomized document id; by construction it satisfies the
/// naming rule.
pub fn generate_doc_id() -> (r: String)
    ensures
        valid_doc_name(r@),
        r@.len() == 21,
{
    random_id_chars()
}

} // verus!
