//! The record of one entry: how it is assembled from the entry's tags, and
//! the block of text it renders as.

use crate::entry::{entry_tags, tags_of, RawTags, TagTexts};
use crate::fields::{
    abstract_text, author_names, authors_text, doi_text, find_year_text, optional_int,
    optional_pages, optional_text, publisher_text, tag_text, texts, title_text, url_text,
    venue_of, venue_text, year_of, year_source, Abstract, Authors, Doi, EntryError, Pages, Place,
    Publisher, Series, Title, Url, Venue, Volume, Year,
};
use crate::number::parsed_int;
use nom_bibtex::Bibliography;
use vstd::prelude::*;
use vstd::string::*;

verus! {

/// A record as a value of the model: every normalised field of one entry.
pub struct Record {
    pub authors: Seq<Seq<char>>,
    pub pages: Pages,
    pub volume: Volume,
    pub year: Year,
    pub doi: Seq<char>,
    pub title: Seq<char>,
    pub venue: Venue,
    pub url: Seq<char>,
    pub summary: Seq<char>,
    pub series: Series,
    pub publisher: Option<Seq<char>>,
}

/// One fully normalised bibliography entry.
pub struct Paper {
    pub auth: Authors,
    pub pages: Pages,
    pub vol: Volume,
    pub year: Year,
    pub doi: Doi,
    pub title: Title,
    pub place: Place,
    pub url: Url,
    pub abs: Abstract,
    pub series: Series,
    pub publi: Publisher,
}

impl View for Paper {
    type V = Record;

    open spec fn view(&self) -> Record {
        Record {
            authors: self.auth@,
            pages: self.pages,
            volume: self.vol,
            year: self.year,
            doi: self.doi@,
            title: self.title@,
            venue: self.place@,
            url: self.url@,
            summary: self.abs@,
            series: self.series,
            publisher: self.publi@,
        }
    }
}

/// The text that holds the series: the `series` tag where it is present,
/// else the `number` tag.
pub open spec fn series_source(tags: TagTexts) -> Option<Seq<char>> {
    if tags.series is Some {
        tags.series
    } else {
        tags.number
    }
}

/// The first reason, if any, for which the tags yield no record. The venue
/// is asked for first, then a text for the year, the author, a year that
/// reads as an integer, the title and the address.
pub open spec fn failure_of(tags: TagTexts) -> Option<EntryError> {
    if venue_of(tags.journal, tags.journaltitle, tags.booktitle) is None {
        Some(EntryError::MissingVenue)
    } else if year_source(tags.date, tags.year) is None {
        Some(EntryError::MissingYear)
    } else if tags.author is None {
        Some(EntryError::MissingAuthor)
    } else if parsed_int(year_source(tags.date, tags.year)->0) is None {
        Some(EntryError::InvalidYear)
    } else if tags.title is None {
        Some(EntryError::MissingTitle)
    } else if tags.url is None {
        Some(EntryError::MissingUrl)
    } else {
        None
    }
}

/// The record that the tags yield where nothing that is needed is missing:
/// each field normalised from its own tag or tags.
pub open spec fn assembled(tags: TagTexts) -> Record {
    Record {
        authors: author_names(tags.author->0),
        pages: optional_pages(tags.pages),
        volume: Volume { nb: optional_int(tags.volume) },
        year: Year { year: parsed_int(year_source(tags.date, tags.year)->0)->0 },
        doi: optional_text(tags.doi),
        title: tags.title->0,
        venue: venue_of(tags.journal, tags.journaltitle, tags.booktitle)->0,
        url: tags.url->0,
        summary: optional_text(tags.summary),
        series: Series { series: optional_int(series_source(tags)) },
        publisher: tags.publisher,
    }
}

/// The record of an entry with the given tags, or the reason why it has none.
pub open spec fn record_of(tags: TagTexts) -> Result<Record, EntryError> {
    match failure_of(tags) {
        Some(e) => Err(e),
        None => Ok(assembled(tags)),
    }
}

/// The parts of a record's block, in the order in which they are written.
pub open spec fn record_parts(r: Record) -> Seq<Seq<char>> {
    seq![
        "---\n"@,
        authors_text(r.authors),
        r.pages.text(),
        r.volume.text(),
        r.series.text(),
        venue_text(r.venue),
        title_text(r.title),
        publisher_text(r.publisher),
        r.year.text(),
        doi_text(r.doi),
        url_text(r.url),
        "---\n"@,
        abstract_text(r.summary),
        "\n"@,
    ]
}

/// The parts one after another, with nothing between them.
pub open spec fn glued(parts: Seq<Seq<char>>) -> Seq<char>
    decreases parts.len(),
{
    if parts.len() == 0 {
        Seq::empty()
    } else {
        glued(parts.drop_last()) + parts.last()
    }
}

/// The block of text of a record: its parts in their fixed order.
pub open spec fn record_text(r: Record) -> Seq<char> {
    glued(record_parts(r))
}

/// Whether `out` is the outcome that the model gives for the tags.
pub open spec fn agrees(out: Result<Paper, EntryError>, tags: TagTexts) -> bool {
    match record_of(tags) {
        Ok(r) => out is Ok && out->Ok_0@ == r,
        Err(e) => out is Err && out->Err_0 == e,
    }
}

/// Glues the parts together.
fn glue(parts: &Vec<String>) -> (out: String)
    ensures
        out@ == glued(texts(parts@)),
{
    let mut out = String::new();
    let mut i: usize = 0;
    assert(texts(parts@).take(0) =~= Seq::<Seq<char>>::empty());
    while i < parts.len()
        invariant
            i <= parts.len(),
            out@ == glued(texts(parts@).take(i as int)),
        decreases parts.len() - i,
    {
        out.append(parts[i].as_str());
        proof {
            let head = texts(parts@).take(i + 1);
            assert(head.drop_last() =~= texts(parts@).take(i as int));
            assert(head.last() == parts@[i as int]@);
        }
        i += 1;
    }
    assert(texts(parts@).take(parts.len() as int) =~= texts(parts@));
    out
}

impl Paper {
    /// Assembles the record of an entry from its tags. The venue, a year, the
    /// author, the title and the address are needed; the first of them that is
    /// missing, in the order of `failure_of`, is the error.
    pub fn from_tags(tags: &RawTags) -> (out: Result<Paper, EntryError>)
        ensures
            agrees(out, tags@),
    {
        let place = match Place::resolve(
            tags.journal.as_ref(),
            tags.journaltitle.as_ref(),
            tags.booktitle.as_ref(),
        ) {
            Ok(p) => p,
            Err(e) => {
                return Err(e);
            },
        };
        let series_tag = if tags.series.is_some() {
            tags.series.as_ref()
        } else {
            tags.number.as_ref()
        };
        let series = Series::from(series_tag);
        let year_text = match find_year_text(tags.date.as_ref(), tags.year.as_ref()) {
            Some(t) => t,
            None => {
                return Err(EntryError::MissingYear);
            },
        };
        let auth = match &tags.author {
            Some(a) => Authors::from_string(a),
            None => {
                return Err(EntryError::MissingAuthor);
            },
        };
        let pages = match &tags.pages {
            Some(p) => Pages::from_string(p),
            None => Pages::default(),
        };
        let vol = Volume::from(tags.volume.as_ref());
        let doi = Doi::from(tags.doi.as_ref());
        let year = match Year::read(&year_text) {
            Ok(y) => y,
            Err(e) => {
                return Err(e);
            },
        };
        let title = match &tags.title {
            Some(t) => Title::from(t),
            None => {
                return Err(EntryError::MissingTitle);
            },
        };
        let url = match &tags.url {
            Some(u) => Url::from(u),
            None => {
                return Err(EntryError::MissingUrl);
            },
        };
        let abs = match &tags.summary {
            Some(a) => Abstract::from(a),
            None => Abstract::from(&String::new()),
        };
        let publi = Publisher::from(tags.publisher.as_ref());
        let paper = Paper { auth, pages, vol, year, doi, title, place, url, abs, series, publi };
        assert(paper@.publisher == tags@.publisher);
        assert(paper@ == assembled(tags@));
        Ok(paper)
    }

    /// Assembles the record of a parsed entry from the tags it holds.
    pub fn from_entry(entry: &Bibliography) -> (out: Result<Paper, EntryError>)
        ensures
            agrees(out, tags_of(entry_tags(*entry))),
    {
        let tags = RawTags::from_entry(entry);
        Paper::from_tags(&tags)
    }

    /// The block of text this record renders as.
    pub open spec fn text(&self) -> Seq<char> {
        record_text(self@)
    }

    /// Renders the record: the front matter between two `---` lines, with
    /// every field in its fixed place, then the abstract and a blank line.
    pub fn render(&self) -> (out: String)
        ensures
            out@ == self.text(),
    {
        let mut parts: Vec<String> = Vec::new();
        parts.push("---\n".to_owned());
        parts.push(self.auth.render());
        parts.push(self.pages.render());
        parts.push(self.vol.render());
        parts.push(self.series.render());
        parts.push(self.place.render());
        parts.push(self.title.render());
        parts.push(self.publi.render());
        parts.push(self.year.render());
        parts.push(self.doi.render());
        parts.push(self.url.render());
        parts.push("---\n".to_owned());
        parts.push(self.abs.render());
        parts.push("\n".to_owned());
        assert(texts(parts@) =~= record_parts(self@));
        glue(&parts)
    }
}

/// The text of a record depends on its fields alone: records with equal
/// fields render alike, so rendering one record twice gives the same text
/// both times.
pub proof fn lemma_render_is_determined(a: Paper, b: Paper, first: String, second: String)
    requires
        a@ == b@,
        first@ == a.text(),
        second@ == b.text(),
    ensures
        first@ == second@,
{
}

/// A block always has the same parts in the same places, and an absent
/// optional field keeps its line with an empty value: no page numbers, no
/// volume, no series and no publisher leave the key and nothing after it; an
/// empty identifier leaves a pair of quotes; an empty abstract leaves an
/// empty line.
pub proof fn lemma_absent_fields_keep_their_lines(r: Record)
    ensures
        record_parts(r).len() == 14,
        r.pages.from is None && r.pages.to is None ==> record_parts(r)[2]
            == "page:\n  from: \n  to: \n"@,
        r.volume.nb is None ==> record_parts(r)[3] == "volume: \n"@,
        r.series.series is None ==> record_parts(r)[4] == "series: \n"@,
        r.publisher is None ==> record_parts(r)[7] == "publisher: \n"@,
        r.doi.len() == 0 ==> record_parts(r)[9] == "doi: \"\"\n"@,
        r.summary.len() == 0 ==> record_parts(r)[12] == "\n"@,
{
    reveal_strlit("\n");
    reveal_strlit("page:\n  from: ");
    reveal_strlit("\n  to: ");
    reveal_strlit("page:\n  from: \n  to: \n");
    reveal_strlit("volume: ");
    reveal_strlit("volume: \n");
    reveal_strlit("series: ");
    reveal_strlit("series: \n");
    reveal_strlit("publisher: ");
    reveal_strlit("publisher: \n");
    reveal_strlit("doi: \"");
    reveal_strlit("\"\n");
    reveal_strlit("doi: \"\"\n");
    let none = Seq::<char>::empty();
    assert("page:\n  from: "@ + none + "\n  to: "@ + none + "\n"@ =~= "page:\n  from: \n  to: \n"@);
    assert("volume: "@ + none + "\n"@ =~= "volume: \n"@);
    assert("series: "@ + none + "\n"@ =~= "series: \n"@);
    assert("publisher: "@ + "\n"@ =~= "publisher: \n"@);
    if r.doi.len() == 0 {
        assert("doi: \""@ + r.doi + "\"\n"@ =~= "doi: \"\"\n"@);
    }
    if r.summary.len() == 0 {
        assert(r.summary + "\n"@ =~= "\n"@);
    }
}

/// A record is assembled exactly when a venue tag, the author, the title and
/// the address are present and the text for the year reads as an integer;
/// then every field is the normalised form of its own tag. Otherwise there
/// is no record at all.
pub proof fn lemma_record_needs(tags: TagTexts)
    ensures
        record_of(tags) is Ok <==> {
            &&& tags.author is Some
            &&& tags.title is Some
            &&& tags.url is Some
            &&& (tags.journal is Some || tags.journaltitle is Some || tags.booktitle is Some)
            &&& year_of(tags.date, tags.year) is Ok
        },
        record_of(tags) is Ok ==> record_of(tags)->Ok_0 == assembled(tags),
        record_of(tags) is Ok ==> year_of(tags.date, tags.year) == Ok::<Year, EntryError>(
            record_of(tags)->Ok_0.year,
        ),
{
}

} // verus!
