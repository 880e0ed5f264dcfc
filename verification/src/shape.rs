//! Bidirectional text shaping.
//!
//! A field's raw text is turned into a glyph-ready string. Text that is
//! representable in the basic single-byte character range is returned
//! unchanged and rendered left to right. Any other text is treated as
//! right-to-left script: its letterforms are contextually joined into
//! presentation forms, and the character order is then reversed so that,
//! combined with right-aligned layout, the reading order comes out
//! correct. Shaping is pure and total: it never fails, and empty input
//! gives empty output. Zero-width joiners are stripped before joining:
//! the joined letterforms carry the connections themselves, and the
//! joining backend cannot be fed joiner-bearing text (see [`reshape`]).

use vstd::prelude::*;
use vstd::string::StrSliceExecFns;
use vstd::string::StringExecFns;
use vstd::utf8::is_ascii_chars;

verus! {

/// The zero-width joiner.
pub open spec fn spec_zwj() -> char {
    '\u{200D}'
}

/// `s` without its zero-width joiners.
pub open spec fn spec_strip_zwj(s: Seq<char>) -> Seq<char>
    decreases s.len(),
{
    if s.len() == 0 {
        Seq::empty()
    } else {
        spec_strip_zwj(s.drop_last()) + if s.last() == spec_zwj() {
            Seq::<char>::empty()
        } else {
            seq![s.last()]
        }
    }
}

/// Builds the string whose characters are those of `s` with the
/// zero-width joiners removed.
fn strip_zwj(s: &str) -> (r: String)
    ensures
        r@ == spec_strip_zwj(s@),
        forall|j: int| 0 <= j < r@.len() ==> r@[j] != spec_zwj(),
{
    let n = s.unicode_len();
    let mut r = String::new();
    let mut i: usize = 0;
    while i < n
        invariant
            n == s@.len(),
            i <= n,
            r@ == spec_strip_zwj(s@.take(i as int)),
            forall|j: int| 0 <= j < r@.len() ==> r@[j] != spec_zwj(),
        decreases n - i,
    {
        proof {
            assert(s@.take(i + 1).drop_last() =~= s@.take(i as int));
            assert(s@.take(i + 1).last() == s@[i as int]);
        }
        let c = s.get_char(i);
        if c != '\u{200D}' {
            push_char(&mut r, c);
            proof {
                assert(r@ =~= spec_strip_zwj(s@.take(i + 1)));
            }
        } else {
            proof {
                assert(r@ =~= spec_strip_zwj(s@.take(i + 1)));
            }
        }
        i = i + 1;
    }
    proof {
        assert(s@.take(n as int) =~= s@);
    }
    r
}

/// Text that holds no zero-width joiner is unchanged by the stripping.
pub proof fn lemma_strip_zwj_noop(s: Seq<char>)
    requires
        forall|i: int| 0 <= i < s.len() ==> s[i] != spec_zwj(),
    ensures
        spec_strip_zwj(s) == s,
    decreases s.len(),
{
    if s.len() == 0 {
        assert(spec_strip_zwj(s) =~= s);
    } else {
        lemma_strip_zwj_noop(s.drop_last());
        assert(spec_strip_zwj(s) =~= s);
    }
}

/// The contextually joined presentation form that the shaping backend
/// produces for a piece of joiner-free text. The joining rules fill
/// pages, so the result is named rather than spelled out; it depends on
/// the characters alone.
pub uninterp spec fn reshaped_of(s: Seq<char>) -> Seq<char>;

/// Relies on arabic_reshaper::arabic_reshape: it joins the letterforms of
/// a text into presentation forms, reading nothing but the text and a
/// fixed built-in configuration, so the result is a function of the
/// characters alone; an empty input has nothing to join and stays empty.
/// Zero-width joiners are excluded by the `requires`: the backend drops
/// them from its letter buffer but not from the text its ligature search
/// indexes that buffer by, so joiner-bearing text can make it read past
/// the buffer's end and panic. The caller strips them first.
#[verifier::external_body]
fn reshape(text: &str) -> (r: String)
    requires
        forall|i: int| 0 <= i < text@.len() ==> text@[i] != spec_zwj(),
    ensures
        r@ == reshaped_of(text@),
        text@.len() == 0 ==> r@.len() == 0,
{
    arabic_reshaper::arabic_reshape(text)
}

/// Relies on std String::push: it appends the given character to the end
/// of the string.
#[verifier::external_body]
fn push_char(s: &mut String, c: char)
    ensures
        final(s)@ == old(s)@.push(c),
{
    s.push(c)
}

/// Builds the string whose characters are those of `s` in reverse order.
fn reverse_chars(s: &str) -> (r: String)
    ensures
        r@ == s@.reverse(),
{
    let n = s.unicode_len();
    let mut r = String::new();
    let mut i: usize = 0;
    while i < n
        invariant
            n == s@.len(),
            i <= n,
            r@.len() == i,
            forall|j: int| 0 <= j < i ==> r@[j] == s@[n - 1 - j],
        decreases n - i,
    {
        let c = s.get_char(n - 1 - i);
        push_char(&mut r, c);
        i = i + 1;
    }
    proof {
        assert(r@ =~= s@.reverse());
    }
    r
}

/// What the shaper returns: ASCII-only text unchanged, anything else the
/// joined presentation form of the joiner-stripped text in reversed
/// character order.
pub open spec fn spec_fix_text(s: Seq<char>) -> Seq<char> {
    if is_ascii_chars(s) {
        s
    } else {
        reshaped_of(spec_strip_zwj(s)).reverse()
    }
}

/// Shapes one field's raw text for drawing. Pure, deterministic and
/// total: the result is fixed by the input characters alone.
pub fn fix_text(text: &str) -> (r: String)
    ensures
        r@ == spec_fix_text(text@),
{
    if !text.is_ascii() {
        let stripped = strip_zwj(text);
        let reshaped = reshape(stripped.as_str());
        reverse_chars(reshaped.as_str())
    } else {
        String::from_str(text)
    }
}

/// ASCII-only input is returned unchanged. Non-ASCII input returns the
/// joined presentation form of the joiner-stripped text with its
/// characters in exactly reversed sequence order: as long as that form,
/// position `i` holding what the form holds at position `len - 1 - i` —
/// and for text without zero-width joiners the stripping changes
/// nothing. Empty input returns empty. Same input always yields same
/// output, since the result is a function of the input characters.
pub proof fn lemma_fix_text_shape(s: Seq<char>)
    ensures
        is_ascii_chars(s) ==> spec_fix_text(s) == s,
        !is_ascii_chars(s) ==> spec_fix_text(s).len() == reshaped_of(spec_strip_zwj(s)).len(),
        !is_ascii_chars(s) ==> forall|i: int|
            0 <= i < reshaped_of(spec_strip_zwj(s)).len() ==> spec_fix_text(s)[i] == reshaped_of(
                spec_strip_zwj(s),
            )[reshaped_of(spec_strip_zwj(s)).len() - 1 - i],
        (forall|i: int| 0 <= i < s.len() ==> s[i] != spec_zwj()) ==> spec_strip_zwj(s) == s,
        s.len() == 0 ==> spec_fix_text(s) == s,
{
    if forall|i: int| 0 <= i < s.len() ==> s[i] != spec_zwj() {
        lemma_strip_zwj_noop(s);
    }
    if s.len() == 0 {
        assert(is_ascii_chars(s));
    }
}

} // verus!
