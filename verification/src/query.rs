use vstd::prelude::*;
use vstd::utf8::encode_utf8;

verus! {

/// The bytes a URL query component carries unescaped: ASCII alphanumerics
/// and `-`, `.`, `_`, `~`.
pub open spec fn is_unreserved_byte(b: u8) -> bool {
    (48 <= b <= 57) || (65 <= b <= 90) || (97 <= b <= 122) || b == 45 || b == 46 || b == 95 || b
        == 126
}

/// The uppercase hexadecimal digit character for `d`, `0 <= d < 16`.
pub open spec fn hex_char(d: int) -> char {
    if d < 10 {
        ((48 + d) as u8) as char
    } else {
        ((55 + d) as u8) as char
    }
}

/// How one byte of the UTF-8 form appears in the encoded string: itself when
/// unreserved, a `%XX` triple otherwise.
pub open spec fn pct_byte(b: u8) -> Seq<char> {
    if is_unreserved_byte(b) {
        seq![b as char]
    } else {
        seq!['%', hex_char(b as int / 16), hex_char(b as int % 16)]
    }
}

/// The percent-encoding of a byte sequence.
pub open spec fn pct_bytes(bs: Seq<u8>) -> Seq<char>
    decreases bs.len(),
{
    if bs.len() == 0 {
        Seq::empty()
    } else {
        pct_byte(bs[0]) + pct_bytes(bs.drop_first())
    }
}

/// The percent-encoding of a string: its UTF-8 bytes, each unreserved byte
/// kept, every other byte as `%XX` with uppercase hex digits.
pub open spec fn pct_of(s: Seq<char>) -> Seq<char> {
    pct_bytes(encode_utf8(s))
}

/// Relies on `urlencoding::encode`: percent-encodes every byte of the UTF-8
/// form of `s` except ASCII alphanumerics and `-`, `.`, `_`, `~`, writing
/// `%` followed by two uppercase hex digits for each escaped byte.
#[verifier::external_body]
fn percent_encode(s: &str) -> (r: String)
    ensures
        r@ == pct_of(s@),
{
    urlencoding::encode(s).into_owned()
}

/// An unreserved character: one whose code point is an unreserved byte.
pub open spec fn is_unreserved_char(c: char) -> bool {
    (c as int) < 128 && is_unreserved_byte(c as u8)
}

/// An uppercase hexadecimal digit character.
pub open spec fn is_hex_upper(c: char) -> bool {
    (48 <= c as int <= 57) || (65 <= c as int <= 70)
}

/// Whether `s` is in encoded form from position `i` on: unreserved
/// characters and well-formed `%XX` triples, nothing else.
pub open spec fn norm_from(s: Seq<char>, i: int) -> bool
    decreases s.len() - i,
{
    if i >= s.len() {
        true
    } else if is_unreserved_char(s[i]) {
        norm_from(s, i + 1)
    } else if s[i] == '%' && i + 3 <= s.len() && is_hex_upper(s[i + 1]) && is_hex_upper(
        s[i + 2],
    ) {
        norm_from(s, i + 3)
    } else {
        false
    }
}

/// Whether `s` is already an API-safe, percent-encoded string.
pub open spec fn is_normalized(s: Seq<char>) -> bool {
    norm_from(s, 0)
}

/// The normalized form of `s`: `s` itself when it is already encoded,
/// its percent-encoding otherwise.  Encoding thus happens exactly once:
/// normalizing a normalized string changes nothing.
pub open spec fn spec_normalize(s: Seq<char>) -> Seq<char> {
    if is_normalized(s) {
        s
    } else {
        pct_of(s)
    }
}

fn is_unreserved_char_exec(c: char) -> (r: bool)
    ensures
        r == is_unreserved_char(c),
{
    let u = c as u32;
    (48 <= u && u <= 57) || (65 <= u && u <= 90) || (97 <= u && u <= 122) || u == 45 || u == 46
        || u == 95 || u == 126
}

fn is_hex_upper_exec(c: char) -> (r: bool)
    ensures
        r == is_hex_upper(c),
{
    let u = c as u32;
    (48 <= u && u <= 57) || (65 <= u && u <= 70)
}

/// Whether `s` is already in encoded form.
pub fn check_normalized(s: &str) -> (r: bool)
    ensures
        r == is_normalized(s@),
{
    let n = s.unicode_len();
    let mut i: usize = 0;
    while i < n
        invariant
            i <= n,
            n == s@.len(),
            is_normalized(s@) == norm_from(s@, i as int),
        decreases n - i,
    {
        let c = s.get_char(i);
        if is_unreserved_char_exec(c) {
            i = i + 1;
        } else if c == '%' && n - i >= 3 && is_hex_upper_exec(s.get_char(i + 1))
            && is_hex_upper_exec(s.get_char(i + 2)) {
            i = i + 3;
        } else {
            return false;
        }
    }
    true
}

proof fn lemma_pct_bytes_norm_from(prefix: Seq<char>, bs: Seq<u8>)
    ensures
        norm_from(prefix + pct_bytes(bs), prefix.len() as int),
    decreases bs.len(),
{
    let s = prefix + pct_bytes(bs);
    if bs.len() == 0 {
        assert(s =~= prefix);
    } else {
        let b = bs[0];
        let rest = bs.drop_first();
        let prefix2 = prefix + pct_byte(b);
        lemma_pct_bytes_norm_from(prefix2, rest);
        assert(prefix2 + pct_bytes(rest) =~= s);
        let i = prefix.len() as int;
        if is_unreserved_byte(b) {
            assert(s[i] == b as char);
            assert(is_unreserved_char(b as char));
            assert(norm_from(s, i + 1));
        } else {
            assert(s[i] == '%');
            assert(s[i + 1] == hex_char(b as int / 16));
            assert(s[i + 2] == hex_char(b as int % 16));
            assert(is_hex_upper(hex_char(b as int / 16)));
            assert(is_hex_upper(hex_char(b as int % 16)));
            assert(norm_from(s, i + 3));
        }
    }
}

/// The output of the percent-encoder is itself in encoded form.
pub proof fn lemma_pct_of_normalized(s: Seq<char>)
    ensures
        is_normalized(pct_of(s)),
{
    lemma_pct_bytes_norm_from(Seq::empty(), encode_utf8(s));
    assert(Seq::<char>::empty() + pct_bytes(encode_utf8(s)) =~= pct_of(s));
}

/// Law: a title is encoded at most once.  Normalization leaves an already
/// normalized string — in particular any output of `normalize` or
/// `normalize_safe` — untouched, so no string is ever double-encoded.
pub proof fn lemma_normalize_idempotent(t: Seq<char>)
    ensures
        spec_normalize(spec_normalize(t)) == spec_normalize(t),
{
    if !is_normalized(t) {
        lemma_pct_of_normalized(t);
    }
}

/// Normalizes a raw query string into an API-safe parameter, encoding
/// exactly once: a string already in encoded form is returned unchanged,
/// any other is percent-encoded.
pub fn normalize(raw: &str) -> (r: String)
    ensures
        r@ == spec_normalize(raw@),
{
    if check_normalized(raw) {
        raw.to_owned()
    } else {
        percent_encode(raw)
    }
}

/// Like [`normalize`], and certifies in its contract that the result is in
/// encoded form, hence safe to normalize again without double-encoding.
pub fn normalize_safe(raw: &str) -> (r: String)
    ensures
        r@ == spec_normalize(raw@),
        is_normalized(r@),
{
    proof {
        lemma_pct_of_normalized(raw@);
    }
    normalize(raw)
}

/// What `char::to_uppercase` returns: a function of the character alone.
pub uninterp spec fn upper_of(c: char) -> Seq<char>;

/// Relies on `char::to_uppercase`: the Unicode uppercase mapping of `c`,
/// which depends on the character alone.
#[verifier::external_body]
fn uppercase_char(c: char) -> (r: String)
    ensures
        r@ == upper_of(c),
{
    c.to_uppercase().to_string()
}

/// `s` with its first character uppercased (the wiki title convention);
/// the empty string stays empty.
pub open spec fn spec_capitalize(s: Seq<char>) -> Seq<char> {
    if s.len() == 0 {
        s
    } else {
        upper_of(s[0]) + s.skip(1)
    }
}

/// Uppercases the first character of `raw`, leaving the rest unchanged.
pub fn capitalize_first(raw: &str) -> (r: String)
    ensures
        r@ == spec_capitalize(raw@),
{
    let n = raw.unicode_len();
    if n == 0 {
        return raw.to_owned();
    }
    let c = raw.get_char(0);
    let mut s = uppercase_char(c);
    let tail = raw.substring_char(1, n);
    proof {
        assert(raw@.subrange(1, n as int) =~= raw@.skip(1));
    }
    s.append(tail);
    s
}

/// The normalized query parameter: `raw`, first letter capitalized when the
/// deployment asks for the wiki title convention, then encoded exactly once.
pub open spec fn spec_get_query(s: Seq<char>, capitalize: bool) -> Seq<char> {
    if capitalize {
        spec_normalize(spec_capitalize(s))
    } else {
        spec_normalize(s)
    }
}

/// Turns a raw query string into the parameter embedded in request URLs.
///
/// Whether the first letter is uppercased before encoding is an explicit
/// choice of the caller: the wiki title convention wants it for titles,
/// while free-text search terms are best left as typed.
pub fn get_query(query: &str, capitalize: bool) -> (r: String)
    ensures
        r@ == spec_get_query(query@, capitalize),
{
    if capitalize {
        let c = capitalize_first(query);
        normalize(c.as_str())
    } else {
        normalize(query)
    }
}

} // verus!
