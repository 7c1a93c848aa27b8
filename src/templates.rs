use vstd::prelude::*;

use crate::text::{join2, replace_all, replace_str};

verus! {

/// The placeholder `{{KEY}}` that stands for a variable in a template.
pub open spec fn placeholder(k: Seq<char>) -> Seq<char> {
    "{{"@ + k + "}}"@
}

/// A template with each variable's placeholder replaced by its value, in the
/// order the variables are given.
pub open spec fn rendered(t: Seq<char>, vars: Seq<(String, String)>) -> Seq<char>
    decreases vars.len(),
{
    if vars.len() == 0 {
        t
    } else {
        replace_all(rendered(t, vars.drop_last()), placeholder(vars.last().0@), vars.last().1@)
    }
}

/// A secret shown with all but its last four characters hidden.
pub open spec fn masked(v: Seq<char>) -> Seq<char> {
    if v.len() <= 4 {
        "****"@
    } else {
        "****"@ + v.subrange(v.len() - 4, v.len() as int)
    }
}

/// A text cut to at most `max` characters, ending in "..." when it was cut.
pub open spec fn truncated(s: Seq<char>, max: nat) -> Seq<char> {
    if s.len() <= max {
        s
    } else {
        s.subrange(0, if max >= 3 { max - 3 } else { 0 }) + "..."@
    }
}

/// Mustache-style template rendering: replaces `{{KEY}}` with the value of each variable.
pub fn render(template: &str, vars: &Vec<(String, String)>) -> (r: String)
    ensures
        r@ == rendered(template@, vars@),
{
    let mut out = String::from_str(template);
    let mut i: usize = 0;
    while i < vars.len()
        invariant
            i <= vars@.len(),
            out@ == rendered(template@, vars@.subrange(0, i as int)),
        decreases vars@.len() - i,
    {
        proof {
            reveal_strlit("{{");
            reveal_strlit("}}");
        }
        let pattern = join2(join2("{{", vars[i].0.as_str()).as_str(), "}}");
        assert(vars@.subrange(0, i + 1).drop_last() =~= vars@.subrange(0, i as int));
        out = replace_str(out.as_str(), pattern.as_str(), vars[i].1.as_str());
        i += 1;
    }
    assert(vars@.subrange(0, vars@.len() as int) =~= vars@);
    out
}

/// Mask a secret value showing only the last 4 characters.
pub fn mask_secret(value: &str) -> (r: String)
    ensures
        r@ == masked(value@),
{
    let n = value.unicode_len();
    if n <= 4 {
        return String::from_str("****");
    }
    join2("****", value.substring_char(n - 4, n))
}

/// Cuts a text to at most `max` characters for display.
pub fn truncate_str(s: &str, max: usize) -> (r: String)
    ensures
        r@ == truncated(s@, max as nat),
{
    let n = s.unicode_len();
    if n <= max {
        String::from_str(s)
    } else {
        let keep = if max >= 3 { max - 3 } else { 0 };
        join2(s.substring_char(0, keep), "...")
    }
}

/// The lower-case hexadecimal digit for `d < 16`.
pub open spec fn hex_digit(d: nat) -> char {
    if d < 10 {
        crate::text::digit_char(d)
    } else if d == 10 { 'a' }
    else if d == 11 { 'b' }
    else if d == 12 { 'c' }
    else if d == 13 { 'd' }
    else if d == 14 { 'e' }
    else { 'f' }
}

/// Whether a character is a lower-case hexadecimal digit.
pub open spec fn is_hex_char(c: char) -> bool {
    ('0' <= c && c <= '9') || ('a' <= c && c <= 'f')
}

/// Each byte as two lower-case hexadecimal digits, high nibble first.
pub open spec fn hex_of(b: Seq<u8>) -> Seq<char>
    decreases b.len(),
{
    if b.len() == 0 {
        Seq::empty()
    } else {
        hex_of(b.drop_last()) + seq![hex_digit(b.last() as nat / 16), hex_digit(b.last() as nat % 16)]
    }
}

proof fn lemma_hex_of(b: Seq<u8>)
    ensures
        hex_of(b).len() == 2 * b.len(),
        forall|i: int| 0 <= i < hex_of(b).len() ==> is_hex_char(#[trigger] hex_of(b)[i]),
    decreases b.len(),
{
    if b.len() > 0 {
        lemma_hex_of(b.drop_last());
        let d1 = b.last() as nat / 16;
        let d2 = b.last() as nat % 16;
        assert(is_hex_char(hex_digit(d1)));
        assert(is_hex_char(hex_digit(d2)));
    }
}

/// Relies on rand's `thread_rng` and `RngCore::fill_bytes`: 32 bytes, each drawn at random.
#[verifier::external_body]
fn random_bytes() -> (r: Vec<u8>)
    ensures
        r@.len() == 32,
{
    let mut bytes = [0u8; 32];
    rand::RngCore::fill_bytes(&mut rand::thread_rng(), &mut bytes);
    bytes.to_vec()
}

/// Relies on `hex::encode`: two lower-case hexadecimal digits per byte, high nibble first.
#[verifier::external_body]
fn to_hex(b: &Vec<u8>) -> (r: String)
    ensures
        r@ == hex_of(b@),
{
    hex::encode(b)
}

/// Generate a random 32-byte hex auth token.
pub fn generate_auth_token() -> (r: String)
    ensures
        r@.len() == 64,
        forall|i: int| 0 <= i < r@.len() ==> is_hex_char(#[trigger] r@[i]),
{
    let bytes = random_bytes();
    proof {
        lemma_hex_of(bytes@);
    }
    to_hex(&bytes)
}

} // verus!
