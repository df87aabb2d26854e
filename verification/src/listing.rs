//! Column alignment for the listing of key-value records.
//!
//! The listing prints every record's key, a colon, and the value. So the
//! values line up, every label is padded on the right to one alignment
//! column: the widest key's rendered width plus a fixed margin.

use vstd::prelude::*;

use crate::auto_pad_str::{formatted, Alignment, AsAutoPadStr, FormatSpec};
use crate::width::{rendered_width, str_render_width};

verus! {

/// The fixed margin between the widest key and the values.
pub const LIST_MARGIN: usize = 4;

/// The widest rendered width among a sequence of keys.
pub open spec fn max_rendered_width(keys: Seq<Seq<char>>) -> nat
    decreases keys.len(),
{
    if keys.len() == 0 {
        0
    } else {
        let rest = max_rendered_width(keys.drop_last());
        let last = str_render_width(keys.last());
        if last > rest {
            last
        } else {
            rest
        }
    }
}

/// The alignment column for a batch of keys: the widest key's rendered
/// width plus the fixed margin.
pub fn list_alignment(keys: &Vec<String>) -> (r: usize)
    requires
        forall|i: int|
            0 <= i < keys@.len() ==> #[trigger] keys@[i]@.len() * 3 + LIST_MARGIN <= usize::MAX,
    ensures
        r == max_rendered_width(keys@.map_values(|k: String| k@)) + LIST_MARGIN,
{
    let mut acc: usize = 0;
    let mut i: usize = 0;
    while i < keys.len()
        invariant
            i <= keys@.len(),
            forall|j: int|
                0 <= j < keys@.len() ==> #[trigger] keys@[j]@.len() * 3 + LIST_MARGIN
                    <= usize::MAX,
            acc == max_rendered_width(keys@.take(i as int).map_values(|k: String| k@)),
            acc + LIST_MARGIN <= usize::MAX,
        decreases keys@.len() - i,
    {
        let w = rendered_width(keys[i].as_str());
        proof {
            assert(keys@.take(i + 1).map_values(|k: String| k@).drop_last() =~= keys@.take(
                i as int,
            ).map_values(|k: String| k@));
            assert(keys@.take(i + 1).map_values(|k: String| k@).last() == keys@[i as int]@);
        }
        if w > acc {
            acc = w;
        }
        i = i + 1;
    }
    proof {
        assert(keys@.take(keys@.len() as int) =~= keys@);
    }
    acc + LIST_MARGIN
}

/// The specification a listing label is padded under: left alignment to
/// the given column, filled with spaces, no precision.
pub open spec fn label_spec(alignment: usize) -> FormatSpec {
    FormatSpec {
        minimum_width: Option::Some(alignment),
        fill_char: ' ',
        alignment: Option::Some(Alignment::Left),
        precision: Option::None,
    }
}

/// The label printed before a record's value: the key, a colon, and fill
/// spaces out to the alignment column.
pub fn aligned_label(key: &str, alignment: usize) -> (r: String)
    requires
        (key@.len() + 1) * 3 <= usize::MAX,
    ensures
        r@ == formatted(key@ + ":"@, label_spec(alignment)),
{
    proof {
        reveal_strlit(":");
    }
    let label = key.to_owned().concat(":");
    let fs = FormatSpec {
        minimum_width: Some(alignment),
        fill_char: ' ',
        alignment: Some(Alignment::Left),
        precision: None,
    };
    label.as_auto_pad_str().format(&fs)
}

} // verus!
