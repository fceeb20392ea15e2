//! Text primitives shared by the command protocol and the bootstrap pages:
//! UTF-8 decoding, trimming of white space, comparison, decimal numerals and
//! placeholder substitution.

use vstd::prelude::*;
use vstd::slice::slice_to_vec;
use vstd::string::StringSliceAdditionalSpecFns;
use vstd::utf8::*;

verus! {

/// The code points that carry the Unicode `White_Space` property.
pub open spec fn is_white_space(c: char) -> bool {
    let u = c as u32;
    ||| 0x09 <= u <= 0x0D
    ||| u == 0x20
    ||| u == 0x85
    ||| u == 0xA0
    ||| u == 0x1680
    ||| 0x2000 <= u <= 0x200A
    ||| u == 0x2028
    ||| u == 0x2029
    ||| u == 0x202F
    ||| u == 0x205F
    ||| u == 0x3000
}

/// `s` without its longest prefix of white space.
pub open spec fn trim_start(s: Seq<char>) -> Seq<char>
    decreases s.len(),
{
    if s.len() > 0 && is_white_space(s.first()) {
        trim_start(s.drop_first())
    } else {
        s
    }
}

/// `s` without its longest suffix of white space.
pub open spec fn trim_end(s: Seq<char>) -> Seq<char>
    decreases s.len(),
{
    if s.len() > 0 && is_white_space(s.last()) {
        trim_end(s.drop_last())
    } else {
        s
    }
}

/// `s` without surrounding white space.
pub open spec fn trimmed(s: Seq<char>) -> Seq<char> {
    trim_end(trim_start(s))
}

/// True when `s` neither starts nor ends with white space.
pub open spec fn is_trimmed(s: Seq<char>) -> bool {
    s.len() > 0 ==> !is_white_space(s.first()) && !is_white_space(s.last())
}

/// The decimal digit `d` as a character.
pub open spec fn digit(d: nat) -> char
    recommends
        d < 10,
{
    (48 + d) as u8 as char
}

/// The decimal numeral of `n`, without leading zeros.
pub open spec fn decimal(n: nat) -> Seq<char>
    decreases n,
{
    if n < 10 {
        seq![digit(n)]
    } else {
        decimal(n / 10).push(digit(n % 10))
    }
}

/// The decimal numerals of `bytes`, separated by a comma and a space.
pub open spec fn decimal_list(bytes: Seq<u8>) -> Seq<char>
    decreases bytes.len(),
{
    if bytes.len() == 0 {
        Seq::empty()
    } else if bytes.len() == 1 {
        decimal(bytes[0] as nat)
    } else {
        decimal_list(bytes.drop_last()) + seq![',', ' '] + decimal(bytes.last() as nat)
    }
}

/// `text` with every occurrence of `pattern` replaced by `with`, the
/// occurrences taken from the left and never overlapping.
pub open spec fn replaced(text: Seq<char>, pattern: Seq<char>, with: Seq<char>) -> Seq<char>
    decreases text.len(),
{
    if pattern.len() == 0 || text.len() < pattern.len() {
        text
    } else if text.subrange(0, pattern.len() as int) == pattern {
        with + replaced(text.subrange(pattern.len() as int, text.len() as int), pattern, with)
    } else {
        seq![text.first()] + replaced(text.drop_first(), pattern, with)
    }
}

/// True when `pattern` occurs in `text` at index `at`.
pub open spec fn occurs_at(text: Seq<char>, pattern: Seq<char>, at: int) -> bool {
    &&& 0 <= at
    &&& at + pattern.len() <= text.len()
    &&& text.subrange(at, at + pattern.len()) == pattern
}

/// True when `c` stands nowhere in `text` from index `from` up to, but not
/// at, index `to`.
pub open spec fn free_of(text: Seq<char>, c: char, from: int, to: int) -> bool
    decreases to - from,
{
    from >= to || (text[to - 1] != c && free_of(text, c, from, to - 1))
}

/// True when no character of `text` from index `from` up to, but not at,
/// index `to` is `c`. It says what `free_of` says, in one sentence.
#[verifier::opaque]
pub open spec fn clear_of(text: Seq<char>, c: char, from: int, to: int) -> bool {
    forall|j: int| from <= j < to ==> text[j] != c
}

/// The error of `core::str::from_utf8`, which the library maps to its own.
#[verifier::external_type_specification]
#[verifier::external_body]
pub struct ExUtf8Error(core::str::Utf8Error);

/// `core::str::from_utf8` succeeds exactly on well-formed UTF-8 and then
/// returns a string slice over the very bytes it was given.
pub assume_specification[ core::str::from_utf8 ](v: &[u8]) -> (r: Result<
    &str,
    core::str::Utf8Error,
>)
    ensures
        r is Ok <==> valid_utf8(v@),
        r matches Ok(s) ==> s.spec_bytes() == v@,
;

/// `str::trim` removes leading and trailing characters that have the
/// Unicode `White_Space` property, and nothing else.
pub assume_specification[ str::trim ](s: &str) -> (r: &str)
    ensures
        r@ == trimmed(s@),
;

/// `str::replace` with a string pattern: every match of a non-empty `pattern`,
/// found from the left and without overlap, is replaced by `with`.
#[verifier::external_body]
pub(crate) fn replace_all(text: &str, pattern: &str, with: &str) -> (r: String)
    requires
        pattern@.len() > 0,
    ensures
        r@ == replaced(text@, pattern@, with@),
{
    text.replace(pattern, with)
}

/// `u16::to_string` writes the decimal numeral of the number.
#[verifier::external_body]
pub(crate) fn u16_text(n: u16) -> (r: String)
    ensures
        r@ == decimal(n as nat),
{
    n.to_string()
}

/// Tells whether `c` is white space.
pub fn white_space(c: char) -> (r: bool)
    ensures
        r == is_white_space(c),
{
    let u: u32 = c as u32;
    (0x09 <= u && u <= 0x0D) || u == 0x20 || u == 0x85 || u == 0xA0 || u == 0x1680 || (0x2000 <= u
        && u <= 0x200A) || u == 0x2028 || u == 0x2029 || u == 0x202F || u == 0x205F || u == 0x3000
}

/// Decodes `bytes` as UTF-8; `None` when they are not well-formed.
pub fn decode(bytes: &[u8]) -> (r: Option<&str>)
    ensures
        r is Some <==> valid_utf8(bytes@),
        r matches Some(s) ==> s@ == decode_utf8(bytes@),
{
    match core::str::from_utf8(bytes) {
        Ok(s) => {
            proof {
                encode_utf8_decode_utf8(s@);
            }
            Some(s)
        },
        Err(_) => None,
    }
}

/// Tells whether two byte strings are the same.
pub fn bytes_equal(a: &[u8], b: &[u8]) -> (same: bool)
    ensures
        same == (a@ == b@),
{
    if a.len() != b.len() {
        return false;
    }
    let mut i: usize = 0;
    while i < a.len()
        invariant
            a@.len() == b@.len(),
            i <= a@.len(),
            forall|j: int| 0 <= j < i ==> a@[j] == b@[j],
        decreases a@.len() - i,
    {
        if a[i] != b[i] {
            return false;
        }
        i = i + 1;
    }
    assert(a@ =~= b@);
    true
}

/// Tells whether two strings hold the same characters.
pub fn str_equal(a: &str, b: &str) -> (same: bool)
    ensures
        same == (a@ == b@),
{
    let same = bytes_equal(a.as_bytes(), b.as_bytes());
    proof {
        encode_utf8_decode_utf8(a@);
        encode_utf8_decode_utf8(b@);
    }
    same
}

/// The UTF-8 encoding of `s` as an owned byte string.
pub fn utf8_bytes(s: &str) -> (bytes: Vec<u8>)
    ensures
        bytes@ == encode_utf8(s@),
{
    slice_to_vec(s.as_bytes())
}

/// Trimming leaves alone a string that has no white space at either end.
pub proof fn lemma_trimmed_fixed(s: Seq<char>)
    requires
        is_trimmed(s),
    ensures
        trimmed(s) == s,
{
}

/// A trimmed string has no white space at either end.
pub proof fn lemma_trimmed_is_trimmed(s: Seq<char>)
    ensures
        is_trimmed(trimmed(s)),
{
    lemma_trim_start_shape(s);
    lemma_trim_end_shape(trim_start(s));
}

/// What `trim_start` leaves is a suffix of its argument that does not start
/// with white space.
pub proof fn lemma_trim_start_shape(s: Seq<char>)
    ensures
        trim_start(s).len() <= s.len(),
        trim_start(s) == s.subrange(s.len() - trim_start(s).len(), s.len() as int),
        trim_start(s).len() > 0 ==> !is_white_space(trim_start(s).first()),
    decreases s.len(),
{
    if s.len() > 0 && is_white_space(s.first()) {
        let rest = s.drop_first();
        lemma_trim_start_shape(rest);
        let t = trim_start(rest);
        assert(rest.subrange(rest.len() - t.len(), rest.len() as int) =~= s.subrange(
            s.len() - t.len(),
            s.len() as int,
        ));
    } else {
        assert(s.subrange(0, s.len() as int) =~= s);
    }
}

/// What `trim_end` leaves is a prefix of its argument that does not end with
/// white space.
pub proof fn lemma_trim_end_shape(s: Seq<char>)
    ensures
        trim_end(s).len() <= s.len(),
        trim_end(s) == s.subrange(0, trim_end(s).len() as int),
        trim_end(s).len() > 0 ==> !is_white_space(trim_end(s).last()),
    decreases s.len(),
{
    if s.len() > 0 && is_white_space(s.last()) {
        let rest = s.drop_last();
        lemma_trim_end_shape(rest);
        let t = trim_end(rest);
        assert(rest.subrange(0, t.len() as int) =~= s.subrange(0, t.len() as int));
    } else {
        assert(s.subrange(0, s.len() as int) =~= s);
    }
}

/// Trimming twice is trimming once.
pub proof fn lemma_trimmed_idempotent(s: Seq<char>)
    ensures
        trimmed(trimmed(s)) == trimmed(s),
{
    lemma_trimmed_is_trimmed(s);
    lemma_trimmed_fixed(trimmed(s));
}

/// In a stretch that is free of `c`, no character is `c`.
pub proof fn lemma_free_of(text: Seq<char>, c: char, from: int, to: int, j: int)
    requires
        free_of(text, c, from, to),
        from <= j < to,
    ensures
        text[j] != c,
    decreases to - from,
{
    if j < to - 1 {
        lemma_free_of(text, c, from, to - 1, j);
    }
}

/// A stretch that is free of `c` is clear of it.
pub proof fn lemma_free_is_clear(text: Seq<char>, c: char, from: int, to: int)
    requires
        free_of(text, c, from, to),
    ensures
        clear_of(text, c, from, to),
{
    reveal(clear_of);
    assert forall|j: int| from <= j < to implies text[j] != c by {
        lemma_free_of(text, c, from, to, j);
    }
}

/// Where `pattern` first occurs in `text` at index `at`, the replacement
/// keeps what stands before it, puts `with` in its place, and goes on behind
/// it.
pub proof fn lemma_replaced_first_occurrence(
    text: Seq<char>,
    pattern: Seq<char>,
    with: Seq<char>,
    at: int,
)
    requires
        pattern.len() > 0,
        occurs_at(text, pattern, at),
        forall|j: int| 0 <= j < at ==> !occurs_at(text, pattern, j),
    ensures
        replaced(text, pattern, with) == text.subrange(0, at) + with + replaced(
            text.subrange(at + pattern.len(), text.len() as int),
            pattern,
            with,
        ),
    decreases at,
{
    let n = pattern.len() as int;
    if at == 0 {
        assert(text.subrange(0, 0) + with =~= with);
    } else {
        assert(!occurs_at(text, pattern, 0));
        let rest = text.drop_first();
        assert(rest.subrange(at - 1, at - 1 + n) =~= text.subrange(at, at + n));
        assert forall|j: int| 0 <= j < at - 1 implies !occurs_at(rest, pattern, j) by {
            if occurs_at(rest, pattern, j) {
                assert(text.subrange(j + 1, j + 1 + n) =~= rest.subrange(j, j + n));
                assert(occurs_at(text, pattern, j + 1));
            }
        }
        lemma_replaced_first_occurrence(rest, pattern, with, at - 1);
        assert(rest.subrange(at - 1 + n, rest.len() as int) =~= text.subrange(
            at + n,
            text.len() as int,
        ));
        assert(seq![text.first()] + rest.subrange(0, at - 1) =~= text.subrange(0, at));
        let tail = replaced(text.subrange(at + n, text.len() as int), pattern, with);
        assert(seq![text.first()] + (rest.subrange(0, at - 1) + with + tail) =~= text.subrange(
            0,
            at,
        ) + with + tail);
    }
}

/// Where `pattern` occurs in `text` at index `at` and nowhere else, the
/// replacement is the text with `with` in the place of that one occurrence.
pub proof fn lemma_replaced_single_occurrence(
    text: Seq<char>,
    pattern: Seq<char>,
    with: Seq<char>,
    at: int,
)
    requires
        pattern.len() > 0,
        forall|j: int| occurs_at(text, pattern, j) <==> j == at,
    ensures
        replaced(text, pattern, with) == text.subrange(0, at) + with + text.subrange(
            at + pattern.len(),
            text.len() as int,
        ),
{
    let n = pattern.len() as int;
    assert(occurs_at(text, pattern, at));
    let rest = text.subrange(at + n, text.len() as int);
    lemma_replaced_first_occurrence(text, pattern, with, at);
    assert forall|j: int| !occurs_at(rest, pattern, j) by {
        if occurs_at(rest, pattern, j) {
            assert(text.subrange(j + at + n, j + at + n + n) =~= rest.subrange(j, j + n));
            assert(occurs_at(text, pattern, j + at + n));
        }
    }
    lemma_replaced_without_occurrence(rest, pattern, with);
}

/// A text in which `pattern` does not occur is left as it is.
pub proof fn lemma_replaced_without_occurrence(
    text: Seq<char>,
    pattern: Seq<char>,
    with: Seq<char>,
)
    requires
        forall|j: int| !occurs_at(text, pattern, j),
    ensures
        replaced(text, pattern, with) == text,
    decreases text.len(),
{
    let n = pattern.len() as int;
    if pattern.len() == 0 || text.len() < pattern.len() {
    } else {
        assert(!occurs_at(text, pattern, 0));
        let rest = text.drop_first();
        assert forall|j: int| !occurs_at(rest, pattern, j) by {
            if occurs_at(rest, pattern, j) {
                assert(text.subrange(j + 1, j + 1 + n) =~= rest.subrange(j, j + n));
                assert(occurs_at(text, pattern, j + 1));
            }
        }
        lemma_replaced_without_occurrence(rest, pattern, with);
        assert(seq![text.first()] + rest =~= text);
    }
}

} // verus!
