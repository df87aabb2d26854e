//! Terminal display width of characters and strings.
//!
//! A character occupies 0, 1, 2 or 3 terminal columns under the East Asian
//! Width and zero-width combining-character classification; the width of a
//! string is the sum of the widths of its characters in order. Control
//! characters carry no classification and contribute zero columns.

use vstd::prelude::*;

verus! {

/// The column classification of a character, as the `unicode_width` crate
/// gives it: `None` for control characters, otherwise the column count.
pub uninterp spec fn char_width_class(c: char) -> Option<usize>;

/// The rendered width of one character: its classified column count, with
/// unclassified (control) characters contributing zero.
pub open spec fn char_render_width(c: char) -> nat {
    match char_width_class(c) {
        Option::Some(w) => w as nat,
        Option::None => 0,
    }
}

/// The rendered width of a sequence of characters: the sum, in order, of
/// the rendered widths of its characters.
pub open spec fn str_render_width(s: Seq<char>) -> nat
    decreases s.len(),
{
    if s.len() == 0 {
        0
    } else {
        char_render_width(s[0]) + str_render_width(s.subrange(1, s.len() as int))
    }
}

/// Relies on `unicode_width::UnicodeWidthChar::width`: the result depends
/// on the character alone; its table yields at most 3 columns, exactly one
/// column for every printable ASCII character, and `None` only for control
/// characters.
#[verifier::external_body]
fn unicode_char_width(c: char) -> (r: Option<usize>)
    ensures
        r == char_width_class(c),
        r matches Some(w) ==> w <= 3,
        0x20 <= c as u32 && c as u32 <= 0x7e ==> r == Some(1usize),
{
    unicode_width::UnicodeWidthChar::width(c)
}

/// The rendered width of a single character: 0, 1, 2 or 3 columns.
pub fn rendered_width_of_char(c: char) -> (r: usize)
    ensures
        r == char_render_width(c),
        r <= 3,
        0x20 <= c as u32 && c as u32 <= 0x7e ==> r == 1,
{
    match unicode_char_width(c) {
        Some(w) => w,
        None => 0,
    }
}

/// The rendered width of a string: the sum of the rendered widths of its
/// characters.
pub fn rendered_width(s: &str) -> (r: usize)
    requires
        s@.len() * 3 <= usize::MAX,
    ensures
        r == str_render_width(s@),
        r <= s@.len() * 3,
{
    let n = s.unicode_len();
    let mut acc: usize = 0;
    let mut i: usize = 0;
    while i < n
        invariant
            n == s@.len(),
            i <= n,
            n * 3 <= usize::MAX,
            acc == str_render_width(s@.take(i as int)),
            acc <= i * 3,
        decreases n - i,
    {
        let c = s.get_char(i);
        let w = rendered_width_of_char(c);
        proof {
            lemma_str_render_width_take_succ(s@, i as int);
        }
        acc = acc + w;
        i = i + 1;
    }
    proof {
        assert(s@.take(n as int) =~= s@);
    }
    acc
}

/// The width of a one-character sequence is that character's width.
pub proof fn lemma_str_render_width_singleton(c: char)
    ensures
        str_render_width(seq![c]) == char_render_width(c),
{
    let s = seq![c];
    assert(s.len() == 1 && s[0] == c);
    assert(s.subrange(1, 1) =~= Seq::<char>::empty());
    assert(str_render_width(s) == char_render_width(c) + str_render_width(s.subrange(1, 1)));
}

/// Rendered width distributes over concatenation.
pub proof fn lemma_str_render_width_concat(a: Seq<char>, b: Seq<char>)
    ensures
        str_render_width(a + b) == str_render_width(a) + str_render_width(b),
    decreases a.len(),
{
    if a.len() == 0 {
        assert(a + b =~= b);
    } else {
        let a1 = a.subrange(1, a.len() as int);
        assert((a + b).subrange(1, (a + b).len() as int) =~= a1 + b);
        lemma_str_render_width_concat(a1, b);
    }
}

/// Extending a prefix by one character adds that character's width.
pub proof fn lemma_str_render_width_take_succ(s: Seq<char>, i: int)
    requires
        0 <= i < s.len(),
    ensures
        str_render_width(s.take(i + 1)) == str_render_width(s.take(i)) + char_render_width(
            s[i],
        ),
{
    assert(s.take(i + 1) =~= s.take(i) + seq![s[i]]);
    lemma_str_render_width_concat(s.take(i), seq![s[i]]);
    lemma_str_render_width_singleton(s[i]);
}

/// A longer prefix never renders narrower than a shorter one.
pub proof fn lemma_str_render_width_take_monotone(s: Seq<char>, i: int, j: int)
    requires
        0 <= i <= j <= s.len(),
    ensures
        str_render_width(s.take(i)) <= str_render_width(s.take(j)),
{
    assert(s.take(j) =~= s.take(i) + s.subrange(i, j));
    lemma_str_render_width_concat(s.take(i), s.subrange(i, j));
}

/// A string of single-column characters renders exactly one column per
/// character, so its rendered width equals its character count; when the
/// string is moreover ASCII, that count also equals its length in bytes.
pub proof fn lemma_single_column_width(s: Seq<char>)
    requires
        forall|i: int| 0 <= i < s.len() ==> char_render_width(s[i]) == 1,
    ensures
        str_render_width(s) == s.len(),
        vstd::utf8::is_ascii_chars(s) ==> vstd::utf8::encode_utf8(s).len() == s.len(),
    decreases s.len(),
{
    if s.len() > 0 {
        lemma_single_column_width(s.subrange(1, s.len() as int));
    }
    if vstd::utf8::is_ascii_chars(s) {
        vstd::utf8::is_ascii_chars_encode_utf8(s);
    }
}

} // verus!
