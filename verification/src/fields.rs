//! Tables of fields, index to (key, text), and the substitution that puts
//! them into a template.

use crate::schema::views;
use crate::text::{replace, replace_all};
use std::collections::HashMap;
use vstd::prelude::*;

verus! {

/// A table of fields as plain values: index to (key, text).
pub type Table = Map<usize, (Seq<char>, Seq<char>)>;

/// The texts of an optional list of string slices.
pub open spec fn option_views(strs: Option<&[&str]>) -> Option<Seq<Seq<char>>> {
    match strs {
        Some(strs) => Some(views(strs@)),
        None => None,
    }
}

/// The number of fields that `fill_with_fields` writes: one per key, or one
/// per pair of key and text where texts are given.
pub open spec fn fill_count(keys: Seq<Seq<char>>, texts: Option<Seq<Seq<char>>>) -> nat {
    match texts {
        Some(texts) => if texts.len() < keys.len() {
            texts.len()
        } else {
            keys.len()
        },
        None => keys.len(),
    }
}

/// `table` with the entries `0..n` overwritten: entry `i` gets the key
/// `keys[i]` and the text `texts[i]`, or the empty text where no texts are
/// given. Other entries stay.
pub open spec fn filled(
    table: Table,
    keys: Seq<Seq<char>>,
    texts: Option<Seq<Seq<char>>>,
    n: nat,
) -> Table {
    Map::new(
        |k: usize| k < n || table.contains_key(k),
        |k: usize|
            if k < n {
                (
                    keys[k as int],
                    match texts {
                        Some(texts) => texts[k as int],
                        None => Seq::empty(),
                    },
                )
            } else {
                table[k]
            },
    )
}

/// A table of fields that can be filled from lists of keys and texts.
pub trait ApaFiller {
    /// The table as plain values.
    spec fn table(&self) -> Table;

    /// Fills the table with fields and values.
    fn fill_with_fields(&mut self, fields: &[&str], content: Option<&[&str]>)
        ensures
            final(self).table() == filled(
                old(self).table(),
                views(fields@),
                option_views(content),
                fill_count(views(fields@), option_views(content)),
            ),
    ;
}

impl ApaFiller for HashMap<usize, (String, String)> {
    open spec fn table(&self) -> Table {
        self@.map_values(|entry: (String, String)| (entry.0@, entry.1@))
    }

    fn fill_with_fields(&mut self, fields: &[&str], content: Option<&[&str]>) {
        let n = match content {
            Some(content) => if content.len() < fields.len() {
                content.len()
            } else {
                fields.len()
            },
            None => fields.len(),
        };
        let ghost keys = views(fields@);
        let ghost texts = option_views(content);
        let mut i: usize = 0;
        while i < n
            invariant
                i <= n,
                n == fill_count(keys, texts),
                keys == views(fields@),
                texts == option_views(content),
                self.table() == filled(old(self).table(), keys, texts, i as nat),
            decreases n - i,
        {
            let text = match content {
                Some(content) => content[i].to_string(),
                None => String::new(),
            };
            let key = fields[i].to_string();
            let ghost before = self.table();
            self.insert(i, (key, text));
            assert(self.table() =~= before.insert(i, (key@, text@)));
            i += 1;
        }
    }
}

/// There are `n` indices below `n`.
proof fn lemma_below_size(n: nat)
    requires
        n <= usize::MAX,
    ensures
        Set::new(|k: usize| k < n).finite(),
        Set::new(|k: usize| k < n).len() == n,
    decreases n,
{
    if n == 0 {
        assert(Set::new(|k: usize| k < n) =~= Set::empty());
    } else {
        lemma_below_size((n - 1) as nat);
        assert(Set::new(|k: usize| k < n) =~= Set::new(|k: usize| k < n - 1).insert(
            (n - 1) as usize,
        ));
    }
}

/// Filling `n` entries into an empty table gives a table of `n` entries.
pub proof fn lemma_filled_size(keys: Seq<Seq<char>>, texts: Option<Seq<Seq<char>>>, n: nat)
    requires
        n <= usize::MAX,
    ensures
        filled(Map::empty(), keys, texts, n).dom().finite(),
        filled(Map::empty(), keys, texts, n).len() == n,
{
    lemma_below_size(n);
    assert(filled(Map::empty(), keys, texts, n).dom() =~= Set::new(|k: usize| k < n));
}

/// The table has an entry at each index below its size.
pub open spec fn indexed(table: Table) -> bool {
    table.dom().finite() && forall|i: usize| i < table.len() ==> table.contains_key(i)
}

/// The text that `text` becomes when the first `n` fields are put in, one
/// after the other in the order of their indices: every occurrence of a
/// field's key is replaced with the field's text, or, while that is empty,
/// with its placeholder. Each replacement works on the outcome of the one
/// before, so a text that holds a later field's key is replaced again.
pub open spec fn substitute(text: Seq<char>, data: Table, placeholders: Table, n: nat) -> Seq<char>
    decreases n,
{
    if n == 0 {
        text
    } else {
        let i = (n - 1) as usize;
        let done = substitute(text, data, placeholders, (n - 1) as nat);
        if data[i].1.len() > 0 {
            replace_all(done, data[i].0, data[i].1)
        } else {
            replace_all(done, placeholders[i].0, placeholders[i].1)
        }
    }
}

/// The text that `text` becomes when the first `n` fields are put in, one
/// after the other: every occurrence of the key `keys[i]` is replaced with
/// `texts[i]`, or, while that is empty, with `placeholders[i]`.
pub open spec fn fill(
    text: Seq<char>,
    keys: Seq<Seq<char>>,
    texts: Seq<Seq<char>>,
    placeholders: Seq<Seq<char>>,
    n: nat,
) -> Seq<char>
    decreases n,
{
    if n == 0 {
        text
    } else {
        let i = n - 1;
        replace_all(
            fill(text, keys, texts, placeholders, (n - 1) as nat),
            keys[i],
            if texts[i].len() > 0 {
                texts[i]
            } else {
                placeholders[i]
            },
        )
    }
}

/// Puts the fields of `data` into `string`, in the order of their indices:
/// the text of each field that has one, the placeholder of each that is empty.
pub fn replace_string_contents(
    string: String,
    data: &HashMap<usize, (String, String)>,
    placeholders: &HashMap<usize, (String, String)>,
) -> (output: String)
    requires
        indexed(data.table()),
        forall|i: usize| i < data.table().len() ==> placeholders.table().contains_key(i),
    ensures
        output@ == substitute(string@, data.table(), placeholders.table(), data.table().len()),
{
    let mut output = string;
    let n = data.len();
    assert(data.table().dom() =~= data@.dom());
    let mut i: usize = 0;
    while i < n
        invariant
            i <= n,
            n == data.table().len(),
            indexed(data.table()),
            forall|i: usize| i < data.table().len() ==> placeholders.table().contains_key(i),
            output@ == substitute(string@, data.table(), placeholders.table(), i as nat),
        decreases n - i,
    {
        assert(data.table().contains_key(i) && placeholders.table().contains_key(i));
        let field = data.get(&i).unwrap();
        if !field.1.as_str().is_empty() {
            output = replace(output.as_str(), field.0.as_str(), field.1.as_str());
        } else {
            let placeholder = placeholders.get(&i).unwrap();
            output = replace(output.as_str(), placeholder.0.as_str(), placeholder.1.as_str());
        }
        i += 1;
    }
    output
}

} // verus!
