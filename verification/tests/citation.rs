use apa::date::Date;
use apa::{clipboard_html, replace_string_contents, ApaFiller, ApaFormat, ApaFormatType, Lang};
use std::collections::HashMap;

fn entry(key: &str, text: &str) -> (String, String) {
    (key.to_string(), text.to_string())
}

fn texts_of(apa: &ApaFormat) -> Vec<String> {
    (0..apa.data.len()).map(|i| apa.data[&i].1.clone()).collect()
}

fn keys_of(apa: &ApaFormat) -> Vec<String> {
    (0..apa.data.len()).map(|i| apa.data[&i].0.clone()).collect()
}

const JAN_5_2024: Date = Date { month: 1, day: 5, year: 2024 };

#[test]
fn list_offers_the_three_formats_in_order() {
    assert_eq!(
        ApaFormatType::list(),
        [ApaFormatType::Website, ApaFormatType::Newspaper, ApaFormatType::Dictionary]
    );
}

#[test]
fn link_points_to_more_information() {
    for format in ApaFormatType::list() {
        assert_eq!(format.link(), "https://www.scribbr.com/apa-examples/website/");
    }
    assert_eq!(ApaFormatType::Unselected.link(), "");
}

#[test]
fn formats_have_names() {
    assert_eq!(ApaFormatType::Website.to_string(), "webpage");
    assert_eq!(ApaFormatType::Newspaper.to_string(), "newspaper article");
    assert_eq!(ApaFormatType::Dictionary.to_string(), "dictionary entry");
    assert_eq!(ApaFormatType::Unselected.to_string(), "none");
}

#[test]
fn formats_have_their_fields() {
    assert_eq!(
        ApaFormatType::Website.field_keys(),
        vec!["authors", "date", "title", "website", "URL"]
    );
    assert_eq!(
        ApaFormatType::Newspaper.field_keys(),
        vec!["authors", "date", "title", "newspaper", "URL"]
    );
    assert_eq!(
        ApaFormatType::Dictionary.field_keys(),
        vec!["authors", "date", "word", "editors", "dictionary", "publisher", "URL"]
    );
    assert!(ApaFormatType::Unselected.field_keys().is_empty());
    for format in [
        ApaFormatType::Unselected,
        ApaFormatType::Website,
        ApaFormatType::Newspaper,
        ApaFormatType::Dictionary,
    ] {
        assert_eq!(format.field_count(), format.field_keys().len());
        assert_eq!(format.field_count(), format.field_placeholders().len());
    }
}

#[test]
fn formats_have_their_placeholders() {
    assert_eq!(
        ApaFormatType::Website.field_placeholders(),
        vec!["Author's Last Name, Initial(s)", "n.d.", "Title of work", "Website", ""]
    );
    assert_eq!(
        ApaFormatType::Newspaper.field_placeholders(),
        vec!["Author's Last Name, Initial(s)", "n.d.", "Title of work", "Newspaper", ""]
    );
    assert_eq!(
        ApaFormatType::Dictionary.field_placeholders(),
        vec![
            "Author's Last Name, Initial(s)",
            "n.d.",
            "Word",
            "Initial(s). Last Name",
            "Dictionary",
            "Publisher",
            ""
        ]
    );
}

#[test]
fn fill_without_content_leaves_the_texts_empty() {
    let mut table: HashMap<usize, (String, String)> = HashMap::new();
    table.fill_with_fields(&["authors", "date"], None);
    assert_eq!(table.len(), 2);
    assert_eq!(table[&0], entry("authors", ""));
    assert_eq!(table[&1], entry("date", ""));
}

#[test]
fn fill_with_content_pairs_keys_and_texts() {
    let mut table: HashMap<usize, (String, String)> = HashMap::new();
    table.fill_with_fields(&["authors", "date", "title"], Some(&["A", "B"]));
    assert_eq!(table.len(), 2);
    assert_eq!(table[&0], entry("authors", "A"));
    assert_eq!(table[&1], entry("date", "B"));

    let mut table: HashMap<usize, (String, String)> = HashMap::new();
    table.fill_with_fields(&["authors"], Some(&["A", "B"]));
    assert_eq!(table.len(), 1);
    assert_eq!(table[&0], entry("authors", "A"));
}

#[test]
fn fill_overwrites_from_the_first_index_and_keeps_the_rest() {
    let mut table: HashMap<usize, (String, String)> = HashMap::new();
    table.insert(0, entry("old", "text"));
    table.insert(3, entry("far", "kept"));
    table.fill_with_fields(&["authors", "date"], None);
    assert_eq!(table.len(), 3);
    assert_eq!(table[&0], entry("authors", ""));
    assert_eq!(table[&1], entry("date", ""));
    assert_eq!(table[&3], entry("far", "kept"));
}

#[test]
fn new_citation_has_every_field_empty() {
    for format in ApaFormatType::list() {
        let apa = ApaFormat::new(format, None);
        assert_eq!(apa.format, format);
        assert_eq!(apa.lang, Lang::English);
        assert_eq!(apa.data.len(), format.field_count());
        assert_eq!(apa.placeholders.len(), format.field_count());
        assert_eq!(keys_of(&apa), format.field_keys());
        assert!(texts_of(&apa).iter().all(|text| text.is_empty()));
        for i in 0..format.field_count() {
            assert_eq!(apa.placeholders[&i].0, format.field_keys()[i]);
            assert_eq!(apa.placeholders[&i].1, format.field_placeholders()[i]);
        }
        assert!(apa.is_wf());
    }
}

#[test]
fn new_citation_without_a_format_has_no_fields() {
    let apa = ApaFormat::new(ApaFormatType::Unselected, Some(Lang::Spanish));
    assert_eq!(apa.lang, Lang::Spanish);
    assert!(apa.data.is_empty());
    assert!(apa.placeholders.is_empty());
    assert!(apa.is_wf());
    assert_eq!(apa.render(None), "none");
    assert_eq!(apa.render(Some(JAN_5_2024)), "none");
    assert_eq!(apa.to_string(), "none");
}

#[test]
fn switching_the_format_starts_with_empty_fields() {
    let mut website = ApaFormat::new(ApaFormatType::Website, None);
    website.set_text(0, "Doe, J.".to_string());
    website.set_text(2, "How to code".to_string());
    assert_eq!(texts_of(&website), vec!["Doe, J.", "", "How to code", "", ""]);

    let newspaper = ApaFormat::new(ApaFormatType::Newspaper, Some(website.lang));
    assert_eq!(newspaper.format, ApaFormatType::Newspaper);
    assert_eq!(keys_of(&newspaper), vec!["authors", "date", "title", "newspaper", "URL"]);
    assert_eq!(texts_of(&newspaper), vec!["", "", "", "", ""]);
}

#[test]
fn set_text_changes_one_field() {
    let mut apa = ApaFormat::new(ApaFormatType::Dictionary, None);
    apa.set_text(2, "code".to_string());
    assert_eq!(apa.text(2), "code");
    assert_eq!(texts_of(&apa), vec!["", "", "code", "", "", "", ""]);
    assert_eq!(keys_of(&apa), ApaFormatType::Dictionary.field_keys());
    apa.set_text(2, String::new());
    assert_eq!(apa.text(2), "");
    assert!(apa.is_wf());
}

#[test]
fn is_wf_notices_tables_that_do_not_fit_the_format() {
    let mut apa = ApaFormat::new(ApaFormatType::Website, None);
    apa.data.remove(&4);
    assert!(!apa.is_wf());

    let mut apa = ApaFormat::new(ApaFormatType::Website, None);
    apa.data.remove(&1);
    apa.data.insert(9, entry("date", ""));
    assert!(!apa.is_wf());

    let mut apa = ApaFormat::new(ApaFormatType::Website, None);
    apa.data.insert(3, entry("newspaper", ""));
    assert!(!apa.is_wf());

    let mut apa = ApaFormat::new(ApaFormatType::Website, None);
    apa.placeholders.insert(1, entry("date", "date"));
    assert!(!apa.is_wf());

    let mut apa = ApaFormat::new(ApaFormatType::Website, None);
    apa.placeholders.insert(1, entry("day", "n.d."));
    assert!(!apa.is_wf());

    let mut apa = ApaFormat::new(ApaFormatType::Website, None);
    apa.placeholders.remove(&0);
    assert!(!apa.is_wf());

    let mut apa = ApaFormat::new(ApaFormatType::Website, None);
    apa.format = ApaFormatType::Dictionary;
    assert!(!apa.is_wf());
}

#[test]
fn replace_string_contents_uses_texts_and_placeholders() {
    let mut data: HashMap<usize, (String, String)> = HashMap::new();
    data.insert(0, entry("name", "World"));
    data.insert(1, entry("greeting", ""));
    let mut placeholders: HashMap<usize, (String, String)> = HashMap::new();
    placeholders.insert(0, entry("name", "Nobody"));
    placeholders.insert(1, entry("greeting", "Hello"));
    assert_eq!(
        replace_string_contents("greeting, name! greeting!".to_string(), &data, &placeholders),
        "Hello, World! Hello!"
    );
}

#[test]
fn replace_string_contents_goes_by_index() {
    // The text of field 0 holds the key of field 1, which is replaced next.
    let mut data: HashMap<usize, (String, String)> = HashMap::new();
    data.insert(0, entry("a", "b"));
    data.insert(1, entry("b", "c"));
    let placeholders = data.clone();
    assert_eq!(replace_string_contents("a b".to_string(), &data, &placeholders), "c c");
}

#[test]
fn replace_string_contents_without_fields_keeps_the_text() {
    let data: HashMap<usize, (String, String)> = HashMap::new();
    let placeholders: HashMap<usize, (String, String)> = HashMap::new();
    assert_eq!(replace_string_contents("authors".to_string(), &data, &placeholders), "authors");
}

#[test]
fn website_with_title_and_url() {
    let mut apa = ApaFormat::new(ApaFormatType::Website, None);
    apa.set_text(2, "How to code".to_string());
    apa.set_text(4, "wikipedia.com".to_string());
    let reference = apa.render(None);
    assert_eq!(
        reference,
        "Author's Last Name, Initial(s). (n.d.). <i>How to code</i>. Website. wikipedia.com"
    );
    for key in ["authors", "date", "title", "website", "URL"] {
        assert!(!reference.contains(key));
    }
}

#[test]
fn website_with_retrieval_date() {
    let mut apa = ApaFormat::new(ApaFormatType::Website, None);
    apa.set_text(2, "How to code".to_string());
    apa.set_text(4, "wikipedia.com".to_string());
    let reference = apa.render(Some(JAN_5_2024));
    assert_eq!(
        reference,
        "Author's Last Name, Initial(s). (n.d.). <i>How to code</i>. Website. \
         Retrieved January 5, 2024, from wikipedia.com"
    );
    assert!(reference.contains("Retrieved January 5, 2024, from"));
    for key in ["authors", "date", "title", "website", "URL"] {
        assert!(!reference.contains(key));
    }
}

#[test]
fn spanish_website_with_retrieval_date() {
    let mut apa = ApaFormat::new(ApaFormatType::Website, Some(Lang::Spanish));
    apa.set_text(0, "Cervantes, M.".to_string());
    apa.set_text(1, "1605".to_string());
    apa.set_text(2, "Don Quijote".to_string());
    apa.set_text(3, "Biblioteca".to_string());
    apa.set_text(4, "example.es".to_string());
    let reference = apa.render(Some(JAN_5_2024));
    assert_eq!(
        reference,
        "Cervantes, M.. (1605). <i>Don Quijote</i>. Biblioteca. \
         Consultado el 5 de enero, 2024, de example.es"
    );
    assert!(reference.contains("Consultado el 5 de enero, 2024, de"));
}

#[test]
fn newspaper_with_retrieval_date() {
    let mut apa = ApaFormat::new(ApaFormatType::Newspaper, None);
    apa.set_text(0, "Doe, J.".to_string());
    apa.set_text(3, "The Times".to_string());
    assert_eq!(
        apa.render(Some(Date { month: 12, day: 31, year: 1999 })),
        "Doe, J.. (n.d.). <i>Title of work</i>. The Times. Retrieved December 31, 1999, from "
    );
    assert_eq!(apa.render(None), "Doe, J.. (n.d.). <i>Title of work</i>. The Times. ");
}

#[test]
fn empty_website_shows_placeholders_and_no_url() {
    let apa = ApaFormat::new(ApaFormatType::Website, None);
    assert_eq!(
        apa.render(None),
        "Author's Last Name, Initial(s). (n.d.). <i>Title of work</i>. Website. "
    );
}

#[test]
fn dictionary_is_not_dated() {
    let mut apa = ApaFormat::new(ApaFormatType::Dictionary, None);
    apa.set_text(0, "Obama".to_string());
    apa.set_text(2, "code".to_string());
    let expected =
        "Obama. (n.d.). code. In Initial(s). Last Name (Ed.). <i>Dictionary</i>. Publisher. ";
    assert_eq!(apa.render(None), expected);
    assert_eq!(apa.render(Some(JAN_5_2024)), expected);
    assert_eq!(apa.to_string(), expected);
}

#[test]
fn a_text_that_holds_a_later_key_is_replaced_again() {
    let mut apa = ApaFormat::new(ApaFormatType::Website, None);
    apa.set_text(0, "my website".to_string());
    apa.set_text(3, "Example".to_string());
    assert_eq!(apa.render(None), "my Example. (n.d.). <i>Title of work</i>. Example. ");
}

#[test]
fn a_text_that_holds_an_earlier_key_stays() {
    let mut apa = ApaFormat::new(ApaFormatType::Website, None);
    apa.set_text(3, "authors".to_string());
    assert_eq!(
        apa.render(None),
        "Author's Last Name, Initial(s). (n.d.). <i>Title of work</i>. authors. "
    );
}

#[test]
fn to_string_dates_the_reference_today() {
    let mut apa = ApaFormat::new(ApaFormatType::Website, None);
    apa.set_text(4, "example.org".to_string());
    let reference = apa.to_string();
    assert!(reference
        .starts_with("Author's Last Name, Initial(s). (n.d.). <i>Title of work</i>. Website. Retrieved "));
    assert!(reference.ends_with(", from example.org"));
}

#[test]
fn clipboard_html_puts_the_header_first() {
    assert_eq!(
        clipboard_html("<i>Title</i>."),
        "<meta http-equiv=\"content-type\" content=\"text; charset=utf-8\"><i>Title</i>."
    );
    assert_eq!(
        clipboard_html(""),
        "<meta http-equiv=\"content-type\" content=\"text; charset=utf-8\">"
    );
}
