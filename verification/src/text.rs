//! Facts about UTF-8 text and the few `str`/`String` operations that the
//! lexer needs beyond what vstd specifies.
use vstd::prelude::*;
use vstd::utf8::*;
use vstd::string::StringExecFns;
use vstd::string::StringSliceAdditionalSpecFns;

verus! {

broadcast use vstd::utf8::encode_utf8_valid_utf8, vstd::utf8::encode_utf8_decode_utf8;

/// In valid UTF-8, every index that is the end of the bytes or holds a byte
/// that is not a continuation byte is a character boundary.
pub proof fn lemma_boundary_at_non_continuation(bytes: Seq<u8>, k: int)
    requires
        valid_utf8(bytes),
        0 <= k <= bytes.len(),
        k == bytes.len() || !is_continuation_byte(bytes[k]),
    ensures
        is_char_boundary(bytes, k),
    decreases bytes.len(),
{
    if k != 0 {
        let l = length_of_first_scalar(bytes);
        let rest = pop_first_scalar(bytes);
        assert(valid_first_scalar(bytes));
        assert(1 <= l <= 4);
        assert(l <= bytes.len());
        assert(k >= l) by {
            if k < l {
                assert(is_continuation_byte(bytes[k]));
            }
        }
        assert(rest.len() == bytes.len() - l);
        if k - l < rest.len() {
            assert(rest[k - l] == bytes[k]);
        }
        lemma_boundary_at_non_continuation(rest, k - l);
    }
}

/// The bytes between two non-continuation positions of valid UTF-8 are
/// themselves valid UTF-8.
pub proof fn lemma_valid_between(bytes: Seq<u8>, i: int, j: int)
    requires
        valid_utf8(bytes),
        0 <= i <= j <= bytes.len(),
        i == bytes.len() || !is_continuation_byte(bytes[i]),
        j == bytes.len() || !is_continuation_byte(bytes[j]),
    ensures
        valid_utf8(bytes.subrange(i, j)),
        is_char_boundary(bytes, i),
        is_char_boundary(bytes, j),
{
    lemma_boundary_at_non_continuation(bytes, i);
    lemma_boundary_at_non_continuation(bytes, j);
    valid_utf8_split(bytes, j);
    let pre = bytes.subrange(0, j);
    if i < j {
        assert(pre[i] == bytes[i]);
    }
    lemma_boundary_at_non_continuation(pre, i);
    valid_utf8_split(pre, i);
    assert(pre.subrange(i, pre.len() as int) =~= bytes.subrange(i, j));
}

/// The characters that Unicode's `White_Space` property holds for.
pub open spec fn is_white_space(c: char) -> bool {
    let u = c as u32;
    ||| 9 <= u <= 13
    ||| u == 32
    ||| u == 0x85
    ||| u == 0xa0
    ||| u == 0x1680
    ||| 0x2000 <= u <= 0x200a
    ||| u == 0x2028
    ||| u == 0x2029
    ||| u == 0x202f
    ||| u == 0x205f
    ||| u == 0x3000
}

/// Index of the first character at or after `i` that is not white space.
pub open spec fn first_non_white(s: Seq<char>, i: int) -> int
    decreases s.len() - i,
{
    if 0 <= i < s.len() && is_white_space(s[i]) {
        first_non_white(s, i + 1)
    } else {
        i
    }
}

/// One past the index of the last character before `j` that is not white space.
pub open spec fn end_non_white(s: Seq<char>, j: int) -> int
    decreases j,
{
    if 0 < j <= s.len() && is_white_space(s[j - 1]) {
        end_non_white(s, j - 1)
    } else {
        j
    }
}

/// `s` without its leading and trailing white space.
pub open spec fn trim_white_space(s: Seq<char>) -> Seq<char> {
    let a = first_non_white(s, 0);
    let e = end_non_white(s, s.len() as int);
    if a < e {
        s.subrange(a, e)
    } else {
        Seq::empty()
    }
}

/// Calls `str::trim`, which removes leading and trailing characters whose
/// Unicode `White_Space` property holds.  The contract states that result.
#[verifier::external_body]
pub(crate) fn trim_str(s: &str) -> (r: &str)
    ensures
        r@ == trim_white_space(s@),
{
    s.trim()
}

/// Calls `str` indexing by a byte range, `&s[a..b]`.  Its contract states the
/// bytes of the result; the `requires` excludes the inputs on which indexing
/// panics (an end outside the text or not on a character boundary).
#[verifier::external_body]
pub(crate) fn str_slice(s: &str, a: usize, b: usize) -> (r: &str)
    requires
        a <= b <= s.spec_bytes().len(),
        is_char_boundary(s.spec_bytes(), a as int),
        is_char_boundary(s.spec_bytes(), b as int),
    ensures
        r.spec_bytes() == s.spec_bytes().subrange(a as int, b as int),
{
    &s[a..b]
}

/// The first character of a text, if it has one.
pub(crate) fn first_char(s: &str) -> (r: Option<char>)
    ensures
        r == (if s@.len() > 0 {
            Some(s@[0])
        } else {
            None::<char>
        }),
{
    broadcast use vstd::string::axiom_spec_iter, vstd::string::next_postcondition;

    let mut it = s.chars();
    it.next()
}

/// Calls `String::push`, which appends one character.
#[verifier::external_body]
pub(crate) fn push_char(s: &mut String, c: char)
    ensures
        final(s)@ == old(s)@.push(c),
{
    s.push(c)
}

/// In valid UTF-8, a character boundary inside the text holds a byte that
/// is not a continuation byte.
pub proof fn lemma_boundary_not_continuation(bytes: Seq<u8>, k: int)
    requires
        valid_utf8(bytes),
        0 <= k < bytes.len(),
        is_char_boundary(bytes, k),
    ensures
        !is_continuation_byte(bytes[k]),
    decreases bytes.len(),
{
    assert(valid_first_scalar(bytes));
    if k != 0 {
        let l = length_of_first_scalar(bytes);
        let rest = pop_first_scalar(bytes);
        assert(rest.len() == bytes.len() - l);
        assert(is_char_boundary(rest, k - l));
        assert(0 <= k - l <= rest.len());
        assert(rest[k - l] == bytes[k]);
        lemma_boundary_not_continuation(rest, k - l);
    }
}

/// In valid UTF-8, the index after a one-byte (ASCII) character that starts
/// at a boundary is a boundary too.
pub proof fn lemma_boundary_after_ascii(bytes: Seq<u8>, k: int)
    requires
        valid_utf8(bytes),
        0 <= k < bytes.len(),
        is_char_boundary(bytes, k),
        bytes[k] < 0x80,
    ensures
        is_char_boundary(bytes, k + 1),
{
    lemma_boundary_not_continuation(bytes, k);
    if k + 1 < bytes.len() {
        // the byte after a one-byte character cannot continue a character
        assert(!is_continuation_byte(bytes[k + 1])) by {
            if is_continuation_byte(bytes[k + 1]) {
                lemma_continuation_follows_multibyte(bytes, k + 1);
            }
        }
    }
    lemma_boundary_at_non_continuation(bytes, k + 1);
}

/// In valid UTF-8, a continuation byte follows a byte of at least 0x80.
pub proof fn lemma_continuation_follows_multibyte(bytes: Seq<u8>, k: int)
    requires
        valid_utf8(bytes),
        0 < k < bytes.len(),
        is_continuation_byte(bytes[k]),
    ensures
        bytes[k - 1] >= 0x80,
    decreases bytes.len(),
{
    assert(valid_first_scalar(bytes));
    let l = length_of_first_scalar(bytes);
    let rest = pop_first_scalar(bytes);
    assert(rest.len() == bytes.len() - l);
    if k < l {
        assert(bytes[0] >= 0x80);
        if k >= 2 {
            assert(is_continuation_byte(bytes[k - 1]));
        }
    } else if k == l {
        assert(rest[0] == bytes[k]);
        assert(valid_utf8(rest));
        assert(valid_first_scalar(rest));
        assert(false);
    } else {
        assert(rest[k - l] == bytes[k]);
        assert(rest[k - l - 1] == bytes[k - 1]);
        lemma_continuation_follows_multibyte(rest, k - l);
    }
}

/// The text of the bytes `s[a..b]` of `src`, which start and end on
/// character boundaries, as a `String`.
pub fn text_between(src: &str, a: usize, b: usize) -> (r: String)
    requires
        a <= b <= src.spec_bytes().len(),
        is_char_boundary(src.spec_bytes(), a as int),
        is_char_boundary(src.spec_bytes(), b as int),
    ensures
        valid_utf8(src.spec_bytes().subrange(a as int, b as int)),
        r@ == decode_utf8(src.spec_bytes().subrange(a as int, b as int)),
{
    proof {
        let bs = src.spec_bytes();
        assert(valid_utf8(bs)) by {
            assert(bs == encode_utf8(src@));
        }
        if a < bs.len() {
            lemma_boundary_not_continuation(bs, a as int);
        }
        if b < bs.len() {
            lemma_boundary_not_continuation(bs, b as int);
        }
        lemma_valid_between(bs, a as int, b as int);
    }
    let piece = str_slice(src, a, b);
    proof {
        assert(decode_utf8(encode_utf8(piece@)) == piece@);
    }
    String::from_str(piece)
}

/// A `String` from a string literal or other `str`.
pub fn string_of(s: &str) -> (r: String)
    ensures
        r@ == s@,
{
    String::from_str(s)
}

/// `a` followed by `b`.
pub fn concat_str(a: String, b: &str) -> (r: String)
    ensures
        r@ == a@ + b@,
{
    a.concat(b)
}

} // verus!
