//! A reference in the making: the texts of its fields, and the reference
//! that they render to.

use crate::date::{format_retrieval, retrieval_phrase, today, Date};
use crate::fields::{
    fill, filled, lemma_filled_size, replace_string_contents, substitute, ApaFiller,
};
use crate::schema::{views, ApaFormatType, Lang};
use crate::text::same_text;
use std::collections::HashMap;
use vstd::prelude::*;

verus! {

/// A reference in the making: its format, the texts of its fields and the
/// placeholders that stand in for empty ones.
pub struct ApaFormat {
    pub format: ApaFormatType,
    /// Index to (key, text) for each field of the format.
    pub data: HashMap<usize, (String, String)>,
    /// Index to (key, placeholder) for each field of the format.
    pub placeholders: HashMap<usize, (String, String)>,
    /// Language of the retrieval phrase.
    pub lang: Lang,
}

/// What a reference in the making holds: the format, the language and the
/// text of each field in the order of the form.
pub struct Citation {
    pub format: ApaFormatType,
    pub lang: Lang,
    pub texts: Seq<Seq<char>>,
}

impl Citation {
    /// The citation of `format` in `lang` with every field empty.
    pub open spec fn empty(format: ApaFormatType, lang: Lang) -> Citation {
        Citation { format, lang, texts: Seq::new(format.keys().len(), |i: int| Seq::empty()) }
    }

    /// There is one text for each field of the format.
    pub open spec fn wf(self) -> bool {
        self.texts.len() == self.format.keys().len()
    }

    /// The reference that the citation renders to: the format's template
    /// with the fields put in. With a date, a dated format says in the
    /// citation's language when the source was retrieved.
    pub open spec fn reference(self, date: Option<Date>) -> Seq<char> {
        let phrase = match date {
            Some(date) => Some(retrieval_phrase(self.lang, date)),
            None => None,
        };
        fill(
            self.format.template(phrase),
            self.format.keys(),
            self.texts,
            self.format.placeholders(),
            self.format.keys().len(),
        )
    }
}

impl View for ApaFormat {
    type V = Citation;

    open spec fn view(&self) -> Citation {
        Citation {
            format: self.format,
            lang: self.lang,
            texts: Seq::new(self.data.table().len(), |i: int| self.data.table()[i as usize].1),
        }
    }
}

impl ApaFormat {
    /// The tables hold exactly the fields of the format, each under its
    /// index and key, and the placeholders are those of the format.
    pub open spec fn wf(&self) -> bool {
        let keys = self.format.keys();
        &&& self.data.table().dom().finite()
        &&& self.placeholders.table().dom().finite()
        &&& self.data.table().len() == keys.len()
        &&& self.placeholders.table().len() == keys.len()
        &&& forall|i: usize| i < keys.len() ==> #[trigger] self.keyed(i)
        &&& forall|i: usize| i < keys.len() ==> #[trigger] self.backed(i)
    }

    /// Field `i` of the format has its entry in the table of texts.
    pub open spec fn keyed(&self, i: usize) -> bool {
        &&& self.data.table().contains_key(i)
        &&& self.data.table()[i].0 == self.format.keys()[i as int]
    }

    /// Field `i` of the format has its entry in the table of placeholders.
    pub open spec fn backed(&self, i: usize) -> bool {
        &&& self.placeholders.table().contains_key(i)
        &&& self.placeholders.table()[i] == (
            self.format.keys()[i as int],
            self.format.placeholders()[i as int],
        )
    }

    /// A reference of the given format with every field empty. Without a
    /// language the reference is in English.
    pub fn new(format: ApaFormatType, lang: Option<Lang>) -> (apa: ApaFormat)
        ensures
            apa.wf(),
            apa@ == Citation::empty(
                format,
                match lang {
                    Some(lang) => lang,
                    None => Lang::English,
                },
            ),
    {
        let mut data: HashMap<usize, (String, String)> = HashMap::new();
        let mut placeholders: HashMap<usize, (String, String)> = HashMap::new();
        let fields = format.field_keys();
        let field_placeholders = format.field_placeholders();
        data.fill_with_fields(fields.as_slice(), None);
        placeholders.fill_with_fields(fields.as_slice(), Some(field_placeholders.as_slice()));
        let lang = match lang {
            Some(lang) => lang,
            None => Lang::English,
        };
        proof {
            lemma_filled_size(format.keys(), None, format.keys().len());
            lemma_filled_size(format.keys(), Some(format.placeholders()), format.keys().len());
            assert(placeholders.table() =~= filled(
                Map::empty(),
                format.keys(),
                Some(format.placeholders()),
                format.keys().len(),
            ));
        }
        let apa = ApaFormat { format, data, placeholders, lang };
        assert(apa@.texts =~= Seq::new(format.keys().len(), |i: int| Seq::empty()));
        apa
    }

    /// Whether the tables hold exactly the fields of the format.
    pub fn is_wf(&self) -> (ok: bool)
        ensures
            ok == self.wf(),
    {
        let keys = self.format.field_keys();
        let texts = self.format.field_placeholders();
        let n = keys.len();
        assert(self.data.table().dom() =~= self.data@.dom());
        assert(self.placeholders.table().dom() =~= self.placeholders@.dom());
        if self.data.len() != n || self.placeholders.len() != n {
            return false;
        }
        let mut i: usize = 0;
        while i < n
            invariant
                i <= n,
                n == self.format.keys().len(),
                n == self.format.placeholders().len(),
                views(keys@) == self.format.keys(),
                views(texts@) == self.format.placeholders(),
                self.data.table().len() == n,
                self.placeholders.table().len() == n,
                self.data.table().dom().finite(),
                self.placeholders.table().dom().finite(),
                forall|k: usize| k < i ==> #[trigger] self.keyed(k),
                forall|k: usize| k < i ==> #[trigger] self.backed(k),
            decreases n - i,
        {
            match self.data.get(&i) {
                Some(field) => {
                    if !same_text(field.0.as_str(), keys[i]) {
                        assert(!self.keyed(i));
                        return false;
                    }
                },
                None => {
                    assert(!self.keyed(i));
                    return false;
                },
            }
            match self.placeholders.get(&i) {
                Some(placeholder) => {
                    if !same_text(placeholder.0.as_str(), keys[i]) || !same_text(
                        placeholder.1.as_str(),
                        texts[i],
                    ) {
                        assert(!self.backed(i));
                        return false;
                    }
                },
                None => {
                    assert(!self.backed(i));
                    return false;
                },
            }
            i += 1;
        }
        true
    }

    /// The text of field `index`.
    pub fn text(&self, index: usize) -> (text: &str)
        requires
            self.wf(),
            index < self.format.keys().len(),
        ensures
            text@ == self@.texts[index as int],
    {
        assert(self.keyed(index));
        self.data.get(&index).unwrap().1.as_str()
    }

    /// Gives field `index` the text `text`.
    pub fn set_text(&mut self, index: usize, text: String)
        requires
            old(self).wf(),
            index < old(self).format.keys().len(),
        ensures
            final(self).wf(),
            final(self)@ == (Citation {
                texts: old(self)@.texts.update(index as int, text@),
                ..old(self)@
            }),
            final(self).placeholders == old(self).placeholders,
    {
        assert(self.keyed(index));
        let key = self.data.get(&index).unwrap().0.clone();
        let ghost before = self.data.table();
        self.data.insert(index, (key, text));
        assert(self.data.table() =~= before.insert(index, (key@, text@)));
        assert forall|i: usize| i < self.format.keys().len() implies #[trigger] self.keyed(i) by {
            assert(old(self).keyed(i));
        }
        assert forall|i: usize| i < self.format.keys().len() implies #[trigger] self.backed(i) by {
            assert(old(self).backed(i));
        }
        assert(self@.texts =~= old(self)@.texts.update(index as int, text@));
    }

    /// Put into a template, the tables give what the fields of the citation
    /// give.
    proof fn lemma_substitute_is_fill(&self, text: Seq<char>, n: nat)
        requires
            self.wf(),
            n <= self.format.keys().len(),
        ensures
            substitute(text, self.data.table(), self.placeholders.table(), n) == fill(
                text,
                self.format.keys(),
                self@.texts,
                self.format.placeholders(),
                n,
            ),
        decreases n,
    {
        if n > 0 {
            self.lemma_substitute_is_fill(text, (n - 1) as nat);
            assert(self.keyed((n - 1) as usize) && self.backed((n - 1) as usize));
        }
    }

    /// Renders the reference. With a date, a dated format says in the
    /// citation's language when the source was retrieved.
    pub fn render(&self, date: Option<Date>) -> (reference: String)
        requires
            self.wf(),
        ensures
            reference@ == self@.reference(date),
    {
        if self.format.field_count() == 0 {
            return "none".to_string();
        }
        let mut template = self.format.template_body().to_string();
        match date {
            Some(date) if self.format.is_dated() => {
                template.append(format_retrieval(&self.lang, &date).as_str());
                template.append(" URL");
            },
            _ => {
                template.append("URL");
            },
        }
        proof {
            assert forall|i: usize| i < self.format.keys().len() implies self.data.table().contains_key(
                i,
            ) && self.placeholders.table().contains_key(i) by {
                assert(self.keyed(i) && self.backed(i));
            }
            self.lemma_substitute_is_fill(template@, self.format.keys().len());
        }
        replace_string_contents(template, &self.data, &self.placeholders)
    }

    /// Renders the reference as of today: a dated format says that the
    /// source was retrieved on the current local date. It reads the clock,
    /// and stops where chrono cannot tell the date; `render` takes the date
    /// from the caller instead.
    pub fn to_string(&self) -> (reference: String)
        requires
            self.wf(),
        ensures
            exists|date: Date|
                date.in_calendar() && reference@ == #[trigger] self@.reference(Some(date)),
    {
        let date = today();
        self.render(Some(date))
    }
}

/// The HTML fragment that carries `reference` to a clipboard: a header that
/// declares the content type, then the reference itself.
pub fn clipboard_html(reference: &str) -> (html: String)
    ensures
        html@ == "<meta http-equiv=\"content-type\" content=\"text; charset=utf-8\">"@
            + reference@,
{
    let mut html = String::new();
    html.append("<meta http-equiv=\"content-type\" content=\"text; charset=utf-8\">");
    html.append(reference);
    html
}

} // verus!
