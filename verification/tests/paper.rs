use bibfront::batch::{render_batch, render_entries};
use bibfront::entry::RawTags;
use bibfront::fields::{EntryError, Pages, Place};
use bibfront::paper::Paper;
use nom_bibtex::{Bibliography, Bibtex};
use std::collections::HashMap;

fn s(text: &str) -> String {
    text.to_string()
}

fn basic_tags() -> RawTags {
    RawTags {
        author: Some(s("Doe, John")),
        title: Some(s("A Title")),
        journal: Some(s("J. Test")),
        url: Some(s("http://x")),
        year: Some(s("2020")),
        ..RawTags::default()
    }
}

fn entry(pairs: &[(&str, &str)]) -> Bibliography {
    let mut tags = HashMap::new();
    for (k, v) in pairs {
        tags.insert(s(k), s(v));
    }
    Bibliography::new(s("article"), s("key"), tags)
}

const BASIC_BLOCK: &str = "---\nauthors:\n  - \"John Doe\"\npage:\n  from: \n  to: \nvolume: \nseries: \njournal:\n  name: \"J. Test\"\n  shortname: \"\"\ntitle: \"A Title\"\npublisher: \nyear: 2020\ndoi: \"\"\nwww: \"http://x\"\n---\n\n\n";

#[test]
fn end_to_end_block() {
    let paper = Paper::from_tags(&basic_tags()).unwrap();
    assert_eq!(paper.render(), BASIC_BLOCK);
}

#[test]
fn end_to_end_from_a_parsed_entry() {
    let e = entry(&[
        ("author", "Doe, John"),
        ("title", "A Title"),
        ("journal", "J. Test"),
        ("url", "http://x"),
        ("year", "2020"),
    ]);
    let paper = Paper::from_entry(&e).unwrap();
    assert_eq!(paper.render(), BASIC_BLOCK);
}

#[test]
fn full_entry_renders_every_field() {
    let e = entry(&[
        ("author", "Doe, John and Smith, Jane"),
        ("title", "Everything"),
        ("booktitle", "Proc. of Things"),
        ("url", "https://example.org/p"),
        ("date", "2021-05-01"),
        ("year", "1999"),
        ("pages", "123--145"),
        ("volume", "12"),
        ("number", "3"),
        ("doi", "10.1000/xyz"),
        ("publisher", "ACM"),
        ("abstract", "We show things."),
        ("note", "ignored"),
    ]);
    let paper = Paper::from_entry(&e).unwrap();
    assert_eq!(
        paper.render(),
        "---\nauthors:\n  - \"John Doe\"\n  - \"Jane Smith\"\npage:\n  from: 123\n  to: 145\nvolume: 12\nseries: 3\nconference:\n  name: \"Proc. of Things\"\n  shortname: \"\"\ntitle: \"Everything\"\npublisher: \"ACM\"\nyear: 2021\ndoi: \"10.1000/xyz\"\nwww: \"https://example.org/p\"\n---\nWe show things.\n\n"
    );
}

#[test]
fn record_holds_the_normalised_fields() {
    let mut tags = basic_tags();
    tags.pages = Some(s("5-9"));
    tags.series = Some(s("2"));
    tags.number = Some(s("8"));
    tags.summary = Some(s("Text"));
    let paper = Paper::from_tags(&tags).unwrap();
    assert_eq!(paper.auth.authors, vec![s("John Doe")]);
    assert_eq!(paper.pages, Pages { from: Some(5), to: Some(9) });
    assert_eq!(paper.vol.nb, None);
    assert_eq!(paper.series.series, Some(2));
    assert_eq!(paper.year.year, 2020);
    assert_eq!(paper.doi.s, "");
    assert_eq!(paper.title.title, "A Title");
    assert!(matches!(&paper.place, Place::Journal(n) if n.name == "J. Test"));
    assert_eq!(paper.url.link, "http://x");
    assert_eq!(paper.abs.abs, "Text");
    assert_eq!(paper.publi.publi, None);
}

#[test]
fn series_tag_hides_the_number_tag() {
    let mut tags = basic_tags();
    tags.series = Some(s("LNCS"));
    tags.number = Some(s("8"));
    assert_eq!(Paper::from_tags(&tags).unwrap().series.series, None);
    tags.series = None;
    assert_eq!(Paper::from_tags(&tags).unwrap().series.series, Some(8));
}

#[test]
fn journal_wins_over_book_title_in_a_record() {
    let mut tags = basic_tags();
    tags.booktitle = Some(s("Y"));
    let paper = Paper::from_tags(&tags).unwrap();
    assert!(matches!(&paper.place, Place::Journal(n) if n.name == "J. Test"));
}

#[test]
fn absent_optional_fields_keep_their_lines() {
    let block = Paper::from_tags(&basic_tags()).unwrap().render();
    let lines: Vec<&str> = block.split('\n').collect();
    assert!(lines.contains(&"volume: "));
    assert!(lines.contains(&"series: "));
    assert!(lines.contains(&"doi: \"\""));
    assert!(lines.contains(&"publisher: "));
    assert!(lines.contains(&"  from: "));
    assert!(lines.contains(&"  to: "));
    assert_eq!(lines.len(), 20);
}

#[test]
fn rendering_twice_gives_the_same_text() {
    let paper = Paper::from_tags(&basic_tags()).unwrap();
    assert_eq!(paper.render(), paper.render());
}

fn failure(tags: &RawTags) -> EntryError {
    match Paper::from_tags(tags) {
        Ok(_) => panic!("a record was assembled"),
        Err(e) => e,
    }
}

#[test]
fn each_needed_tag_is_asked_for() {
    let mut t = basic_tags();
    t.journal = None;
    assert_eq!(failure(&t), EntryError::MissingVenue);
    let mut t = basic_tags();
    t.year = None;
    assert_eq!(failure(&t), EntryError::MissingYear);
    let mut t = basic_tags();
    t.author = None;
    assert_eq!(failure(&t), EntryError::MissingAuthor);
    let mut t = basic_tags();
    t.year = Some(s("n.d."));
    assert_eq!(failure(&t), EntryError::InvalidYear);
    let mut t = basic_tags();
    t.title = None;
    assert_eq!(failure(&t), EntryError::MissingTitle);
    let mut t = basic_tags();
    t.url = None;
    assert_eq!(failure(&t), EntryError::MissingUrl);
}

#[test]
fn the_first_missing_tag_is_reported() {
    assert_eq!(failure(&RawTags::default()), EntryError::MissingVenue);
    let mut t = RawTags::default();
    t.booktitle = Some(s("B"));
    assert_eq!(failure(&t), EntryError::MissingYear);
    t.date = Some(s("soon"));
    assert_eq!(failure(&t), EntryError::MissingAuthor);
    t.author = Some(s("A"));
    assert_eq!(failure(&t), EntryError::InvalidYear);
    t.date = Some(s("1984-01"));
    assert_eq!(failure(&t), EntryError::MissingTitle);
    t.title = Some(s("T"));
    assert_eq!(failure(&t), EntryError::MissingUrl);
    t.url = Some(s("u"));
    assert!(Paper::from_tags(&t).is_ok());
}

#[test]
fn raw_tags_are_read_from_an_entry() {
    let e = entry(&[("abstract", "A"), ("journaltitle", "JT"), ("Author", "upper"), ("doi", "")]);
    let tags = RawTags::from_entry(&e);
    assert_eq!(tags.summary, Some(s("A")));
    assert_eq!(tags.journaltitle, Some(s("JT")));
    assert_eq!(tags.doi, Some(s("")));
    assert_eq!(tags.author, None);
    assert_eq!(tags.journal, None);
    assert_eq!(tags.publisher, None);
}

#[test]
fn batch_is_the_blocks_in_order() {
    let mut second = basic_tags();
    second.title = Some(s("Another"));
    let out = render_batch(&vec![basic_tags(), second]);
    assert_eq!(out.failure, None);
    assert_eq!(out.text, format!("{}{}", BASIC_BLOCK, BASIC_BLOCK.replace("A Title", "Another")));
}

#[test]
fn batch_of_nothing_is_empty() {
    let out = render_batch(&vec![]);
    assert_eq!(out.text, "");
    assert_eq!(out.failure, None);
}

#[test]
fn batch_stops_at_the_first_failure() {
    let mut bad = basic_tags();
    bad.url = None;
    let mut worse = basic_tags();
    worse.author = None;
    let out = render_batch(&vec![basic_tags(), bad, basic_tags(), worse]);
    assert_eq!(out.text, BASIC_BLOCK);
    assert_eq!(out.failure, Some(EntryError::MissingUrl));
}

#[test]
fn batch_from_a_parsed_bibliography() {
    let source = "@article{doe20,\n  author = {Doe, John},\n  title = {A Title},\n  journal = {J. Test},\n  url = {http://x},\n  year = 2020,\n}\n\n@inproceedings{roe21,\n  Author = \"Roe, Richard\",\n  title = {Second},\n  booktitle = {Conf},\n  url = {http://y},\n  date = {2021-02-03},\n  pages = {10--20},\n}\n\n@misc{bad,\n  title = {No venue},\n}\n";
    let bib = Bibtex::parse(source).unwrap();
    let out = render_entries(bib.bibliographies());
    let second = "---\nauthors:\n  - \"Richard Roe\"\npage:\n  from: 10\n  to: 20\nvolume: \nseries: \nconference:\n  name: \"Conf\"\n  shortname: \"\"\ntitle: \"Second\"\npublisher: \nyear: 2021\ndoi: \"\"\nwww: \"http://y\"\n---\n\n\n";
    assert_eq!(out.text, format!("{}{}", BASIC_BLOCK, second));
    assert_eq!(out.failure, Some(EntryError::MissingVenue));
}
