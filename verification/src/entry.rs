//! One bibliography entry as the parser hands it over, and its tags as plain
//! optional texts.

use nom_bibtex::Bibliography;
use vstd::prelude::*;

verus! {

/// `nom_bibtex::Bibliography`, one parsed entry. Nothing inside it is visible
/// here; its tags are reached through `tag` alone.
#[verifier::external_type_specification]
#[verifier::external_body]
pub struct ExBibliography(nom_bibtex::Bibliography);

/// The tags of an entry: a map from each tag's name to its raw text.
pub uninterp spec fn entry_tags(entry: Bibliography) -> Map<Seq<char>, Seq<char>>;

/// `Bibliography::tags` hands out the entry's map from tag names to raw
/// texts, and a lookup in that map yields the text stored under the name, if
/// there is one. The contract says this of the map that `entry_tags` names.
#[verifier::external_body]
fn tag<'a>(entry: &'a Bibliography, key: &str) -> (value: Option<&'a String>)
    ensures
        value is Some <==> entry_tags(*entry).contains_key(key@),
        value is Some ==> value->0@ == entry_tags(*entry)[key@],
{
    entry.tags().get(key)
}

/// The text stored under `key`, if any.
pub open spec fn lookup(tags: Map<Seq<char>, Seq<char>>, key: Seq<char>) -> Option<Seq<char>> {
    if tags.contains_key(key) {
        Some(tags[key])
    } else {
        None
    }
}

/// The view of an optional string.
pub open spec fn text_of(raw: Option<String>) -> Option<Seq<char>> {
    match raw {
        Some(s) => Some(s@),
        None => None,
    }
}

/// The tags that a record is made from, each as an optional text.
pub struct TagTexts {
    pub author: Option<Seq<char>>,
    pub pages: Option<Seq<char>>,
    pub volume: Option<Seq<char>>,
    pub doi: Option<Seq<char>>,
    pub date: Option<Seq<char>>,
    pub year: Option<Seq<char>>,
    pub title: Option<Seq<char>>,
    pub journal: Option<Seq<char>>,
    pub journaltitle: Option<Seq<char>>,
    pub booktitle: Option<Seq<char>>,
    pub url: Option<Seq<char>>,
    pub summary: Option<Seq<char>>,
    pub series: Option<Seq<char>>,
    pub number: Option<Seq<char>>,
    pub publisher: Option<Seq<char>>,
}

/// The raw tags of one entry that a record is made from. A tag that the
/// entry lacks is `None`; `summary` holds the `abstract` tag.
pub struct RawTags {
    pub author: Option<String>,
    pub pages: Option<String>,
    pub volume: Option<String>,
    pub doi: Option<String>,
    pub date: Option<String>,
    pub year: Option<String>,
    pub title: Option<String>,
    pub journal: Option<String>,
    pub journaltitle: Option<String>,
    pub booktitle: Option<String>,
    pub url: Option<String>,
    pub summary: Option<String>,
    pub series: Option<String>,
    pub number: Option<String>,
    pub publisher: Option<String>,
}

impl View for RawTags {
    type V = TagTexts;

    open spec fn view(&self) -> TagTexts {
        TagTexts {
            author: text_of(self.author),
            pages: text_of(self.pages),
            volume: text_of(self.volume),
            doi: text_of(self.doi),
            date: text_of(self.date),
            year: text_of(self.year),
            title: text_of(self.title),
            journal: text_of(self.journal),
            journaltitle: text_of(self.journaltitle),
            booktitle: text_of(self.booktitle),
            url: text_of(self.url),
            summary: text_of(self.summary),
            series: text_of(self.series),
            number: text_of(self.number),
            publisher: text_of(self.publisher),
        }
    }
}

/// The tags of interest within a tag map, each looked up under its name.
pub open spec fn tags_of(tags: Map<Seq<char>, Seq<char>>) -> TagTexts {
    TagTexts {
        author: lookup(tags, "author"@),
        pages: lookup(tags, "pages"@),
        volume: lookup(tags, "volume"@),
        doi: lookup(tags, "doi"@),
        date: lookup(tags, "date"@),
        year: lookup(tags, "year"@),
        title: lookup(tags, "title"@),
        journal: lookup(tags, "journal"@),
        journaltitle: lookup(tags, "journaltitle"@),
        booktitle: lookup(tags, "booktitle"@),
        url: lookup(tags, "url"@),
        summary: lookup(tags, "abstract"@),
        series: lookup(tags, "series"@),
        number: lookup(tags, "number"@),
        publisher: lookup(tags, "publisher"@),
    }
}

/// A copy of the tag stored under `key`, if the entry has one.
fn copy_tag(entry: &Bibliography, key: &str) -> (out: Option<String>)
    ensures
        text_of(out) == lookup(entry_tags(*entry), key@),
{
    match tag(entry, key) {
        Some(s) => Some(s.clone()),
        None => None,
    }
}

impl Default for RawTags {
    /// No tag at all.
    fn default() -> (out: RawTags)
        ensures
            out@ == tags_of(Map::empty()),
    {
        RawTags {
            author: None,
            pages: None,
            volume: None,
            doi: None,
            date: None,
            year: None,
            title: None,
            journal: None,
            journaltitle: None,
            booktitle: None,
            url: None,
            summary: None,
            series: None,
            number: None,
            publisher: None,
        }
    }
}

impl RawTags {
    /// Reads the tags of interest out of a parsed entry.
    pub fn from_entry(entry: &Bibliography) -> (out: RawTags)
        ensures
            out@ == tags_of(entry_tags(*entry)),
    {
        RawTags {
            author: copy_tag(entry, "author"),
            pages: copy_tag(entry, "pages"),
            volume: copy_tag(entry, "volume"),
            doi: copy_tag(entry, "doi"),
            date: copy_tag(entry, "date"),
            year: copy_tag(entry, "year"),
            title: copy_tag(entry, "title"),
            journal: copy_tag(entry, "journal"),
            journaltitle: copy_tag(entry, "journaltitle"),
            booktitle: copy_tag(entry, "booktitle"),
            url: copy_tag(entry, "url"),
            summary: copy_tag(entry, "abstract"),
            series: copy_tag(entry, "series"),
            number: copy_tag(entry, "number"),
            publisher: copy_tag(entry, "publisher"),
        }
    }
}

} // verus!
