//! Measures for laying the form out on a screen: the widths of the column
//! of field names and of the column of texts, and the rule below the form.

use crate::citation::ApaFormat;
use vstd::prelude::*;
use vstd::utf8::encode_utf8;

verus! {

/// The width of a text: the number of bytes of its UTF-8 encoding.
pub open spec fn width(text: Seq<char>) -> usize {
    encode_utf8(text).len() as usize
}

/// The greatest width among `texts`, 0 where there are none.
pub open spec fn widest(texts: Seq<Seq<char>>) -> usize
    decreases texts.len(),
{
    if texts.len() == 0 {
        0
    } else if width(texts.last()) > widest(texts.drop_last()) {
        width(texts.last())
    } else {
        widest(texts.drop_last())
    }
}

/// The rule below a form whose columns are `name_width` and `text_width`
/// wide: a line with a joint where the bar between the columns meets it.
pub open spec fn rule(name_width: usize, text_width: usize) -> Seq<char> {
    Seq::new(
        (name_width + text_width + 5) as nat,
        |i: int|
            if i == name_width + 3 {
                '\u{2534}'
            } else {
                '\u{2500}'
            },
    )
}

/// The width of the widest field name.
pub fn longest_field_name(apa: &ApaFormat) -> (longest: usize)
    requires
        apa.wf(),
    ensures
        longest == widest(apa.format.keys()),
{
    let n = apa.format.field_count();
    let ghost keys = apa.format.keys();
    let mut longest: usize = 0;
    let mut i: usize = 0;
    while i < n
        invariant
            i <= n,
            apa.wf(),
            n == keys.len(),
            keys == apa.format.keys(),
            longest == widest(keys.take(i as int)),
        decreases n - i,
    {
        assert(apa.keyed(i));
        assert(keys.take(i + 1).drop_last() =~= keys.take(i as int));
        let name = apa.data.get(&i).unwrap().0.as_str();
        if name.len() > longest {
            longest = name.len();
        }
        i += 1;
    }
    assert(keys.take(n as int) =~= keys);
    longest
}

/// The width of the widest text of a field.
pub fn longest_field(apa: &ApaFormat) -> (longest: usize)
    requires
        apa.wf(),
    ensures
        longest == widest(apa@.texts),
{
    let n = apa.format.field_count();
    let ghost texts = apa@.texts;
    let mut longest: usize = 0;
    let mut i: usize = 0;
    while i < n
        invariant
            i <= n,
            apa.wf(),
            n == texts.len(),
            texts == apa@.texts,
            longest == widest(texts.take(i as int)),
        decreases n - i,
    {
        assert(texts.take(i + 1).drop_last() =~= texts.take(i as int));
        let text = apa.text(i);
        if text.len() > longest {
            longest = text.len();
        }
        i += 1;
    }
    assert(texts.take(n as int) =~= texts);
    longest
}

/// Draws the rule below a form whose columns are `name_width` and
/// `text_width` wide.
pub fn separator(name_width: usize, text_width: usize) -> (line: String)
    requires
        name_width + text_width + 5 <= usize::MAX,
    ensures
        line@ == rule(name_width, text_width),
{
    let n = name_width + text_width + 5;
    let mut line = String::new();
    let mut i: usize = 0;
    while i < n
        invariant
            i <= n,
            n == name_width + text_width + 5,
            line@ == rule(name_width, text_width).take(i as int),
        decreases n - i,
    {
        if i == name_width + 3 {
            line.push('\u{2534}');
        } else {
            line.push('\u{2500}');
        }
        i += 1;
    }
    line
}

} // verus!
