//! Automatic padding of strings by their rendered terminal width.
//!
//! [`AutoPadStr`] wraps a borrowed string and formats it against a
//! [`FormatSpec`]: an optional precision first truncates the text to at
//! most that many columns on a character boundary, then an optional
//! minimum width pads the text with a fill character on the side the
//! alignment dictates. Without an alignment no padding is added, even
//! when the text is narrower than the minimum width.

use vstd::prelude::*;

use crate::width::{
    char_render_width, lemma_str_render_width_take_monotone, lemma_str_render_width_take_succ,
    rendered_width, rendered_width_of_char, str_render_width,
};

verus! {

/// The number of leading characters the truncation pass keeps: those of
/// the longest prefix whose rendered width stays within the precision.
pub open spec fn truncated_count(s: Seq<char>, precision: nat) -> nat
    decreases s.len(),
{
    if s.len() == 0 {
        0
    } else if str_render_width(s) <= precision {
        s.len()
    } else {
        truncated_count(s.drop_last(), precision)
    }
}

/// The truncation of a string to a precision: the longest prefix whose
/// rendered width is at most the precision.
pub open spec fn truncated(s: Seq<char>, precision: nat) -> Seq<char> {
    s.take(truncated_count(s, precision) as int)
}

/// The kept character count never exceeds the string's length.
pub proof fn lemma_truncated_count_le(s: Seq<char>, precision: nat)
    ensures
        truncated_count(s, precision) <= s.len(),
    decreases s.len(),
{
    if s.len() > 0 && str_render_width(s) > precision {
        lemma_truncated_count_le(s.drop_last(), precision);
    }
}

/// The truncated prefix renders within the precision, and it is a prefix
/// of the string.
pub proof fn lemma_truncated_within(s: Seq<char>, precision: nat)
    ensures
        str_render_width(truncated(s, precision)) <= precision,
        truncated(s, precision).is_prefix_of(s),
    decreases s.len(),
{
    lemma_truncated_count_le(s, precision);
    if s.len() == 0 {
        assert(s.take(0) =~= Seq::<char>::empty());
    } else if str_render_width(s) <= precision {
        assert(s.take(s.len() as int) =~= s);
    } else {
        let d = s.drop_last();
        lemma_truncated_count_le(d, precision);
        let k = truncated_count(d, precision) as int;
        lemma_truncated_within(d, precision);
        assert(s.take(k) =~= d.take(k));
    }
}

/// Keeping one more character than the truncation does would exceed the
/// precision.
pub proof fn lemma_truncated_count_maximal(s: Seq<char>, precision: nat)
    requires
        truncated_count(s, precision) < s.len(),
    ensures
        str_render_width(s.take(truncated_count(s, precision) as int + 1)) > precision,
    decreases s.len(),
{
    let k = truncated_count(s, precision) as int;
    let d = s.drop_last();
    lemma_truncated_count_le(d, precision);
    if k < d.len() {
        lemma_truncated_count_maximal(d, precision);
        assert(s.take(k + 1) =~= d.take(k + 1));
    } else {
        assert(s.take(k + 1) =~= s);
    }
}

/// Any cut point whose prefix renders within the precision and whose next
/// character would overflow it is the truncation's cut point.
pub proof fn lemma_truncated_count_unique(s: Seq<char>, precision: nat, k: int)
    requires
        0 <= k <= s.len(),
        str_render_width(s.take(k)) <= precision,
        k < s.len() ==> str_render_width(s.take(k + 1)) > precision,
    ensures
        k == truncated_count(s, precision),
{
    let t = truncated_count(s, precision) as int;
    lemma_truncated_count_le(s, precision);
    lemma_truncated_within(s, precision);
    if k < t {
        lemma_str_render_width_take_monotone(s, k + 1, t);
        assert(false);
    } else if k > t {
        lemma_truncated_count_maximal(s, precision);
        lemma_str_render_width_take_monotone(s, t + 1, k);
        assert(false);
    }
}

/// A string already within the precision is kept whole.
pub proof fn lemma_truncated_noop(s: Seq<char>, precision: nat)
    requires
        str_render_width(s) <= precision,
    ensures
        truncated(s, precision) == s,
{
    if s.len() == 0 {
        assert(s.take(0) =~= s);
    } else {
        assert(s.take(s.len() as int) =~= s);
    }
}

/// Truncate a string to at most `precision` rendered columns, cutting only
/// on character boundaries: the longest prefix whose rendered width stays
/// within the precision.
pub fn truncate_to_width<'a>(s: &'a str, precision: usize) -> (r: &'a str)
    ensures
        r@ == truncated(s@, precision as nat),
        r@.len() <= s@.len(),
{
    let n = s.unicode_len();
    let mut acc: usize = 0;
    let mut k: usize = 0;
    let mut stop: bool = false;
    while !stop && k < n
        invariant
            n == s@.len(),
            k <= n,
            acc == str_render_width(s@.take(k as int)),
            acc <= precision,
            stop ==> k < n && str_render_width(s@.take(k as int + 1)) > precision,
        decreases n - k + (if stop { 0int } else { 1int }),
    {
        let c = s.get_char(k);
        let w = rendered_width_of_char(c);
        proof {
            lemma_str_render_width_take_succ(s@, k as int);
        }
        if w > precision - acc {
            stop = true;
        } else {
            acc = acc + w;
            k = k + 1;
        }
    }
    proof {
        lemma_truncated_count_unique(s@, precision as nat, k as int);
        lemma_truncated_count_le(s@, precision as nat);
    }
    s.substring_char(0, k)
}

/// How a string is aligned within its minimum width.
#[derive(Clone, Copy, PartialEq, Eq, Structural, Debug)]
pub enum Alignment {
    Left,
    Right,
    Center,
}

/// The recognized formatting options: an optional minimum width in
/// columns, the fill character (one column each, by convention), an
/// optional alignment, and an optional precision bounding the rendered
/// width of the text before padding.
#[derive(Clone, Copy, Debug)]
pub struct FormatSpec {
    pub minimum_width: Option<usize>,
    pub fill_char: char,
    pub alignment: Option<Alignment>,
    pub precision: Option<usize>,
}

impl Default for FormatSpec {
    /// No minimum width, no alignment, no precision, and a space as fill.
    fn default() -> (r: FormatSpec)
        ensures
            r.minimum_width is None,
            r.fill_char == ' ',
            r.alignment is None,
            r.precision is None,
    {
        FormatSpec { minimum_width: None, fill_char: ' ', alignment: None, precision: None }
    }
}

/// A run of `n` copies of the fill character.
pub open spec fn fill_chars(c: char, n: nat) -> Seq<char> {
    Seq::new(n, |i: int| c)
}

/// The text after the truncation pass: cut to the precision when one is
/// given, untouched otherwise.
pub open spec fn truncated_text(text: Seq<char>, fs: FormatSpec) -> Seq<char> {
    match fs.precision {
        Option::Some(p) => truncated(text, p as nat),
        Option::None => text,
    }
}

/// The result of formatting `text` under `fs`: the truncated text, padded
/// with fill characters up to the minimum width on the side the alignment
/// dictates. Text already at least as wide as the minimum, a missing
/// minimum width, or a missing alignment all leave the truncated text
/// unpadded; centering puts the odd leftover column on the right.
pub open spec fn formatted(text: Seq<char>, fs: FormatSpec) -> Seq<char> {
    let t = truncated_text(text, fs);
    let w = str_render_width(t);
    match fs.minimum_width {
        Option::None => t,
        Option::Some(mw) => if w >= mw {
            t
        } else {
            let n = (mw - w) as nat;
            match fs.alignment {
                Option::None => t,
                Option::Some(Alignment::Left) => t + fill_chars(fs.fill_char, n),
                Option::Some(Alignment::Right) => fill_chars(fs.fill_char, n) + t,
                Option::Some(Alignment::Center) => fill_chars(fs.fill_char, n / 2) + t
                    + fill_chars(fs.fill_char, (n - n / 2) as nat),
            }
        },
    }
}

/// Formatting is idempotent: a formatted string, formatted again under the
/// same specification when its minimum width equals the result's own
/// rendered width, comes back unchanged. A precision below the result's
/// rendered width is excluded: it would cut the padding just added.
pub proof fn lemma_format_idempotent(text: Seq<char>, fs: FormatSpec)
    requires
        fs.minimum_width matches Some(mw) && mw as nat == str_render_width(formatted(text, fs)),
        fs.precision matches Some(p) ==> str_render_width(formatted(text, fs)) <= p as nat,
    ensures
        formatted(formatted(text, fs), fs) == formatted(text, fs),
{
    let r = formatted(text, fs);
    match fs.precision {
        Option::Some(p) => {
            lemma_truncated_noop(r, p as nat);
        },
        Option::None => {},
    }
}

/// Relies on `alloc::string::String::push`: appends the character to the
/// end of the string.
pub assume_specification[ String::push ](s: &mut String, c: char)
    ensures
        final(s)@ == old(s)@.push(c),
;

/// A string of `n` copies of one character.
fn repeat_char(c: char, n: usize) -> (r: String)
    ensures
        r@ == fill_chars(c, n as nat),
{
    let mut out = String::new();
    let mut i: usize = 0;
    while i < n
        invariant
            i <= n,
            out@ == fill_chars(c, i as nat),
        decreases n - i,
    {
        out.push(c);
        proof {
            assert(out@ =~= fill_chars(c, (i + 1) as nat));
        }
        i = i + 1;
    }
    out
}

/// A borrowed string measured and padded by its rendered terminal width
/// rather than its byte length.
pub struct AutoPadStr<'a>(&'a str);

impl<'a> View for AutoPadStr<'a> {
    type V = Seq<char>;

    closed spec fn view(&self) -> Seq<char> {
        self.0@
    }
}

impl<'a> AutoPadStr<'a> {
    /// The rendered terminal width of the wrapped string.
    pub fn rendered_len(&self) -> (r: usize)
        requires
            self@.len() * 3 <= usize::MAX,
        ensures
            r == str_render_width(self@),
            r <= self@.len() * 3,
    {
        rendered_width(self.0)
    }

    /// Render the wrapped string under a format specification: truncate it
    /// to the precision, then pad it with the fill character up to the
    /// minimum width as the alignment dictates.
    pub fn format(&self, fs: &FormatSpec) -> (r: String)
        requires
            self@.len() * 3 <= usize::MAX,
        ensures
            r@ == formatted(self@, *fs),
    {
        let t: &str = match fs.precision {
            Some(p) => truncate_to_width(self.0, p),
            None => self.0,
        };
        let w = rendered_width(t);
        match fs.minimum_width {
            None => t.to_owned(),
            Some(mw) => {
                if w >= mw {
                    t.to_owned()
                } else {
                    let n = mw - w;
                    match fs.alignment {
                        None => t.to_owned(),
                        Some(Alignment::Left) => {
                            let mut out = t.to_owned();
                            let filler = repeat_char(fs.fill_char, n);
                            out.append(filler.as_str());
                            out
                        },
                        Some(Alignment::Right) => {
                            let mut out = repeat_char(fs.fill_char, n);
                            out.append(t);
                            out
                        },
                        Some(Alignment::Center) => {
                            let mut out = repeat_char(fs.fill_char, n / 2);
                            out.append(t);
                            let filler = repeat_char(fs.fill_char, n - n / 2);
                            out.append(filler.as_str());
                            out
                        },
                    }
                }
            },
        }
    }
}

/// Wrap a string so that formatting measures it by rendered width.
pub trait AsAutoPadStr {
    /// The characters of the wrapped string.
    spec fn pad_view(&self) -> Seq<char>;

    /// The string as an [`AutoPadStr`].
    fn as_auto_pad_str<'a>(&'a self) -> (r: AutoPadStr<'a>)
        ensures
            r@ == self.pad_view(),
    ;
}

impl AsAutoPadStr for str {
    open spec fn pad_view(&self) -> Seq<char> {
        self@
    }

    fn as_auto_pad_str<'a>(&'a self) -> (r: AutoPadStr<'a>) {
        AutoPadStr(self)
    }
}

impl AsAutoPadStr for String {
    open spec fn pad_view(&self) -> Seq<char> {
        self@
    }

    fn as_auto_pad_str<'a>(&'a self) -> (r: AutoPadStr<'a>) {
        AutoPadStr(self.as_str())
    }
}

} // verus!
