//! The citation formats and what each one is made of: the fields of its
//! form, their placeholders and the template of its reference.

use vstd::prelude::*;

verus! {

/// The kinds of source that a reference can be written for. `Unselected`
/// stands for "not chosen yet" and has no fields.
#[derive(Clone, Copy, Debug, PartialEq, Eq, Structural)]
pub enum ApaFormatType {
    Unselected,
    Website,
    Newspaper,
    Dictionary,
}

/// The language of the retrieval phrase.
#[derive(Clone, Copy, Debug, PartialEq, Eq, Structural)]
pub enum Lang {
    English,
    Spanish,
}

/// The texts of string slices.
pub open spec fn views(strs: Seq<&str>) -> Seq<Seq<char>> {
    strs.map_values(|s: &str| s@)
}

impl ApaFormatType {
    /// The formats that can be chosen, in the order in which they are offered.
    pub open spec fn selectable() -> Seq<ApaFormatType> {
        seq![ApaFormatType::Website, ApaFormatType::Newspaper, ApaFormatType::Dictionary]
    }

    /// The keys of the format's fields, in the order of the form. A key is
    /// also the token that stands for the field in the template.
    pub open spec fn keys(self) -> Seq<Seq<char>> {
        match self {
            ApaFormatType::Unselected => seq![],
            ApaFormatType::Website => seq!["authors"@, "date"@, "title"@, "website"@, "URL"@],
            ApaFormatType::Newspaper => seq!["authors"@, "date"@, "title"@, "newspaper"@, "URL"@],
            ApaFormatType::Dictionary => seq![
                "authors"@,
                "date"@,
                "word"@,
                "editors"@,
                "dictionary"@,
                "publisher"@,
                "URL"@,
            ],
        }
    }

    /// What the reference shows for each field while it is empty. The URL
    /// has no placeholder: an empty URL leaves nothing.
    pub open spec fn placeholders(self) -> Seq<Seq<char>> {
        match self {
            ApaFormatType::Unselected => seq![],
            ApaFormatType::Website => seq![
                "Author's Last Name, Initial(s)"@,
                "n.d."@,
                "Title of work"@,
                "Website"@,
                ""@,
            ],
            ApaFormatType::Newspaper => seq![
                "Author's Last Name, Initial(s)"@,
                "n.d."@,
                "Title of work"@,
                "Newspaper"@,
                ""@,
            ],
            ApaFormatType::Dictionary => seq![
                "Author's Last Name, Initial(s)"@,
                "n.d."@,
                "Word"@,
                "Initial(s). Last Name"@,
                "Dictionary"@,
                "Publisher"@,
                ""@,
            ],
        }
    }

    /// Whether references of this format say when the source was retrieved.
    pub open spec fn dated(self) -> bool {
        self == ApaFormatType::Website || self == ApaFormatType::Newspaper
    }

    /// The template up to the URL, with each field's key where its text
    /// belongs.
    pub open spec fn body(self) -> Seq<char> {
        match self {
            ApaFormatType::Unselected => ""@,
            ApaFormatType::Website => "authors. (date). <i>title</i>. website. "@,
            ApaFormatType::Newspaper => "authors. (date). <i>title</i>. newspaper. "@,
            ApaFormatType::Dictionary =>
                "authors. (date). word. In editors (Ed.). <i>dictionary</i>. publisher. "@,
        }
    }

    /// The reference with each field's key where its text belongs. A
    /// retrieval phrase, where one is given and the format is dated, stands
    /// directly before the URL. Without a format the reference is "none".
    pub open spec fn template(self, phrase: Option<Seq<char>>) -> Seq<char> {
        if self == ApaFormatType::Unselected {
            "none"@
        } else if self.dated() && phrase is Some {
            self.body() + phrase->0 + " URL"@
        } else {
            self.body() + "URL"@
        }
    }

    /// The name under which the format is offered.
    pub open spec fn name(self) -> Seq<char> {
        match self {
            ApaFormatType::Unselected => "none"@,
            ApaFormatType::Website => "webpage"@,
            ApaFormatType::Newspaper => "newspaper article"@,
            ApaFormatType::Dictionary => "dictionary entry"@,
        }
    }

    /// The formats that can be chosen, in the order in which they are offered.
    pub fn list() -> (formats: [ApaFormatType; 3])
        ensures
            formats@ == Self::selectable(),
    {
        let formats = [ApaFormatType::Website, ApaFormatType::Newspaper, ApaFormatType::Dictionary];
        formats
    }

    /// A page with more information about the format; empty for `Unselected`.
    pub fn link(&self) -> (url: &'static str)
        ensures
            url@ == (if *self == ApaFormatType::Unselected {
                ""@
            } else {
                "https://www.scribbr.com/apa-examples/website/"@
            }),
    {
        match self {
            ApaFormatType::Website => "https://www.scribbr.com/apa-examples/website/",
            ApaFormatType::Newspaper => "https://www.scribbr.com/apa-examples/website/",
            ApaFormatType::Dictionary => "https://www.scribbr.com/apa-examples/website/",
            ApaFormatType::Unselected => "",
        }
    }

    /// The name under which the format is offered.
    pub fn to_string(&self) -> (name: String)
        ensures
            name@ == self.name(),
    {
        match self {
            ApaFormatType::Website => "webpage".to_string(),
            ApaFormatType::Newspaper => "newspaper article".to_string(),
            ApaFormatType::Dictionary => "dictionary entry".to_string(),
            ApaFormatType::Unselected => "none".to_string(),
        }
    }

    /// The number of fields of the format.
    pub fn field_count(&self) -> (n: usize)
        ensures
            n == self.keys().len(),
            n == self.placeholders().len(),
    {
        match self {
            ApaFormatType::Website => 5,
            ApaFormatType::Newspaper => 5,
            ApaFormatType::Dictionary => 7,
            ApaFormatType::Unselected => 0,
        }
    }

    /// The keys of the format's fields, in the order of the form.
    pub fn field_keys(&self) -> (keys: Vec<&'static str>)
        ensures
            views(keys@) == self.keys(),
    {
        let keys = match self {
            ApaFormatType::Website => vec!["authors", "date", "title", "website", "URL"],
            ApaFormatType::Newspaper => vec!["authors", "date", "title", "newspaper", "URL"],
            ApaFormatType::Dictionary => vec![
                "authors",
                "date",
                "word",
                "editors",
                "dictionary",
                "publisher",
                "URL",
            ],
            ApaFormatType::Unselected => Vec::new(),
        };
        keys
    }

    /// The placeholders of the format's fields, in the order of the form.
    pub fn field_placeholders(&self) -> (texts: Vec<&'static str>)
        ensures
            views(texts@) == self.placeholders(),
    {
        let texts = match self {
            ApaFormatType::Website => vec![
                "Author's Last Name, Initial(s)",
                "n.d.",
                "Title of work",
                "Website",
                "",
            ],
            ApaFormatType::Newspaper => vec![
                "Author's Last Name, Initial(s)",
                "n.d.",
                "Title of work",
                "Newspaper",
                "",
            ],
            ApaFormatType::Dictionary => vec![
                "Author's Last Name, Initial(s)",
                "n.d.",
                "Word",
                "Initial(s). Last Name",
                "Dictionary",
                "Publisher",
                "",
            ],
            ApaFormatType::Unselected => Vec::new(),
        };
        texts
    }

    /// The template up to the URL.
    pub fn template_body(&self) -> (body: &'static str)
        ensures
            body@ == self.body(),
    {
        match self {
            ApaFormatType::Website => "authors. (date). <i>title</i>. website. ",
            ApaFormatType::Newspaper => "authors. (date). <i>title</i>. newspaper. ",
            ApaFormatType::Dictionary =>
                "authors. (date). word. In editors (Ed.). <i>dictionary</i>. publisher. ",
            ApaFormatType::Unselected => "",
        }
    }

    /// Whether references of this format say when the source was retrieved.
    pub fn is_dated(&self) -> (dated: bool)
        ensures
            dated == self.dated(),
    {
        match self {
            ApaFormatType::Website => true,
            ApaFormatType::Newspaper => true,
            _ => false,
        }
    }
}

} // verus!
