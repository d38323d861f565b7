//! The single-field normalisers: each turns the raw text of one tag into its
//! normalised value, and each value knows the line or lines it renders as.

use crate::number::{decimal, digit_runs, parse_int, parsed_all, parsed_int, push_decimal, split_digit_runs};
use crate::text::{
    chars_of, join, joined, lemma_unbroken, matches_at, pieces, replace_newlines, rows, slice_of, spaced, split_on, string_of,
    trim, trimmed,
};
use vstd::prelude::*;
use vstd::string::*;

verus! {

/// The delimiter between two authors: the word "and" with a space on either side.
pub open spec fn name_separator() -> Seq<char> {
    seq![' ', 'a', 'n', 'd', ' ']
}

/// One author as displayed: the comma-separated fragments of the segment in
/// reverse order, joined by single spaces, then trimmed. A segment without a
/// comma is displayed as it is, trimmed.
pub open spec fn display_name(segment: Seq<char>) -> Seq<char> {
    trimmed(joined(pieces(segment, seq![',']).reverse(), ' '))
}

/// The displayed authors of a raw author list, in the order of the list.
pub open spec fn author_names(raw: Seq<char>) -> Seq<Seq<char>> {
    let segments = pieces(spaced(raw), name_separator());
    Seq::new(segments.len(), |i: int| display_name(segments[i]))
}

/// The lines of the author list: a header, then one quoted item per author.
pub open spec fn authors_text(names: Seq<Seq<char>>) -> Seq<char>
    decreases names.len(),
{
    if names.len() == 0 {
        "authors:\n"@
    } else {
        authors_text(names.drop_last()) + "  - \""@ + names.last() + "\"\n"@
    }
}

/// The view of a vector of strings.
pub open spec fn texts(v: Seq<String>) -> Seq<Seq<char>> {
    Seq::new(v.len(), |i: int| v[i]@)
}

/// Normalised author names, in citation order.
pub struct Authors {
    pub authors: Vec<String>,
}

impl View for Authors {
    type V = Seq<Seq<char>>;

    open spec fn view(&self) -> Seq<Seq<char>> {
        texts(self.authors@)
    }
}

/// The parts in reverse order.
fn reversed(parts: &Vec<Vec<char>>) -> (out: Vec<Vec<char>>)
    ensures
        rows(out@) == rows(parts@).reverse(),
{
    let mut out: Vec<Vec<char>> = Vec::new();
    let mut i: usize = parts.len();
    while i > 0
        invariant
            i <= parts.len(),
            out.len() == parts.len() - i,
            forall|j: int| 0 <= j < out.len() ==> out@[j]@ == parts@[parts.len() - 1 - j]@,
        decreases i,
    {
        i -= 1;
        let part = &parts[i];
        out.push(slice_of(part, 0, part.len()));
        assert(part@.subrange(0, part.len() as int) =~= part@);
    }
    assert(rows(out@) =~= rows(parts@).reverse());
    out
}

/// Turns one author segment into its displayed form.
pub fn format_author(segment: &Vec<char>) -> (out: Vec<char>)
    ensures
        out@ == display_name(segment@),
{
    let comma: Vec<char> = vec![','];
    assert(comma@ =~= seq![',']);
    let fragments = split_on(segment, &comma);
    let backwards = reversed(&fragments);
    let line = join(&backwards, ' ');
    trim(&line)
}

impl Authors {
    /// Splits a raw author list at " and " and displays each author as
    /// "First Last". Line feeds in the list count as spaces.
    pub fn from_string(s: &String) -> (out: Authors)
        ensures
            out@ == author_names(s@),
    {
        let raw = chars_of(s.as_str());
        let flat = replace_newlines(&raw);
        let delimiter: Vec<char> = vec![' ', 'a', 'n', 'd', ' '];
        assert(delimiter@ =~= name_separator());
        let segments = split_on(&flat, &delimiter);
        let mut authors: Vec<String> = Vec::new();
        let mut i: usize = 0;
        while i < segments.len()
            invariant
                i <= segments.len(),
                authors.len() == i,
                forall|j: int| 0 <= j < i ==> authors@[j]@ == display_name(segments@[j]@),
            decreases segments.len() - i,
        {
            let name = format_author(&segments[i]);
            authors.push(string_of(&name));
            i += 1;
        }
        let out = Authors { authors };
        assert(out@ =~= author_names(s@));
        out
    }

    /// The lines this author list renders as.
    pub open spec fn text(&self) -> Seq<char> {
        authors_text(self@)
    }

    /// Renders the header line and one quoted list item per author.
    pub fn render(&self) -> (out: String)
        ensures
            out@ == self.text(),
    {
        let mut out = String::new();
        out.append("authors:\n");
        let mut i: usize = 0;
        assert(self@.take(0) =~= Seq::<Seq<char>>::empty());
        assert(out@ =~= "authors:\n"@);
        while i < self.authors.len()
            invariant
                i <= self.authors.len(),
                out@ == authors_text(self@.take(i as int)),
            decreases self.authors.len() - i,
        {
            out.append("  - \"");
            out.append(self.authors[i].as_str());
            out.append("\"\n");
            proof {
                let head = self@.take(i + 1);
                assert(head.drop_last() =~= self@.take(i as int));
                assert(head.last() == self.authors@[i as int]@);
            }
            i += 1;
        }
        assert(self@.take(self.authors.len() as int) =~= self@);
        out
    }
}

/// The text of an optional tag.
pub open spec fn tag_text(raw: Option<&String>) -> Option<Seq<char>> {
    match raw {
        Some(s) => Some(s@),
        None => None,
    }
}

/// The integer that an optional tag denotes: none where the tag is absent or
/// its text is no integer.
pub open spec fn optional_int(raw: Option<Seq<char>>) -> Option<i64> {
    match raw {
        Some(s) => parsed_int(s),
        None => None,
    }
}

/// The text of an optional tag, empty where the tag is absent.
pub open spec fn optional_text(raw: Option<Seq<char>>) -> Seq<char> {
    match raw {
        Some(s) => s,
        None => Seq::empty(),
    }
}

/// An optional integer as rendered: its decimal form, or nothing.
pub open spec fn optional_decimal(n: Option<i64>) -> Seq<char> {
    match n {
        Some(v) => decimal(v as int),
        None => Seq::empty(),
    }
}

/// Reads an optional tag as an integer; failure to read counts as absence.
pub fn read_optional_int(raw: Option<&String>) -> (out: Option<i64>)
    ensures
        out == optional_int(tag_text(raw)),
{
    match raw {
        Some(s) => parse_int(&chars_of(s.as_str())),
        None => None,
    }
}

/// Appends the decimal form of `n`, or nothing where there is none.
pub fn push_optional_decimal(out: &mut String, n: Option<i64>)
    ensures
        final(out)@ == old(out)@ + optional_decimal(n),
{
    match n {
        Some(v) => push_decimal(out, v),
        None => {
            assert(out@ + Seq::<char>::empty() =~= out@);
        },
    }
}

/// The first and last page of a work, each where one was given.
#[derive(Clone, Copy, Debug, PartialEq, Eq, Structural)]
pub struct Pages {
    pub from: Option<i64>,
    pub to: Option<i64>,
}

/// The page range that a raw `pages` text denotes: the first two stretches
/// of digits that denote an integer, in order. What follows them is ignored.
pub open spec fn page_range(raw: Seq<char>) -> Pages {
    let numbers = parsed_all(digit_runs(raw));
    Pages {
        from: if numbers.len() > 0 {
            Some(numbers[0])
        } else {
            None
        },
        to: if numbers.len() > 1 {
            Some(numbers[1])
        } else {
            None
        },
    }
}

/// The page range of an optional `pages` tag: both ends absent without one.
pub open spec fn optional_pages(raw: Option<Seq<char>>) -> Pages {
    match raw {
        Some(s) => page_range(s),
        None => Pages { from: None, to: None },
    }
}

impl Default for Pages {
    fn default() -> (out: Pages)
        ensures
            out == (Pages { from: None, to: None }),
    {
        Pages { from: None, to: None }
    }
}

impl Pages {
    /// Reads the first two page numbers out of a raw `pages` text.
    pub fn from_string(s: &String) -> (out: Pages)
        ensures
            out == page_range(s@),
    {
        let raw = chars_of(s.as_str());
        let tokens = split_digit_runs(&raw);
        let mut found: Vec<i64> = Vec::new();
        let mut i: usize = 0;
        assert(rows(tokens@).skip(0) =~= rows(tokens@));
        while i < tokens.len() && found.len() < 2
            invariant
                i <= tokens.len(),
                found.len() <= 2,
                found@ + parsed_all(rows(tokens@).skip(i as int)) == parsed_all(rows(tokens@)),
            decreases tokens.len() - i,
        {
            let ghost rest = rows(tokens@).skip(i as int);
            let ghost after = parsed_all(rows(tokens@).skip(i + 1));
            assert(rest.drop_first() =~= rows(tokens@).skip(i + 1));
            assert(rest[0] == tokens@[i as int]@);
            match parse_int(&tokens[i]) {
                Some(n) => {
                    assert((found@ + seq![n]) + after =~= found@ + (seq![n] + after));
                    found.push(n);
                },
                None => {},
            }
            i += 1;
        }
        proof {
            if i == tokens.len() {
                assert(parsed_all(rows(tokens@).skip(i as int)) =~= Seq::<i64>::empty());
            }
        }
        Pages {
            from: if found.len() > 0 {
                Some(found[0])
            } else {
                None
            },
            to: if found.len() > 1 {
                Some(found[1])
            } else {
                None
            },
        }
    }

    /// The lines this page range renders as.
    pub open spec fn text(&self) -> Seq<char> {
        "page:\n  from: "@ + optional_decimal(self.from) + "\n  to: "@ + optional_decimal(self.to)
            + "\n"@
    }

    /// Renders the `page` block, with an empty value for an absent end.
    pub fn render(&self) -> (out: String)
        ensures
            out@ == self.text(),
    {
        let mut out = String::new();
        out.append("page:\n  from: ");
        push_optional_decimal(&mut out, self.from);
        out.append("\n  to: ");
        push_optional_decimal(&mut out, self.to);
        out.append("\n");
        assert(out@ =~= self.text());
        out
    }
}

/// The series (or issue number) of a work, where one was given.
#[derive(Clone, Copy, Debug, PartialEq, Eq, Structural)]
pub struct Series {
    pub series: Option<i64>,
}

impl From<Option<&String>> for Series {
    fn from(s: Option<&String>) -> (out: Series) {
        Series { series: read_optional_int(s) }
    }
}

impl vstd::std_specs::convert::FromSpecImpl<Option<&String>> for Series {
    open spec fn obeys_from_spec() -> bool {
        true
    }

    open spec fn from_spec(s: Option<&String>) -> Series {
        Series { series: optional_int(tag_text(s)) }
    }
}

impl Series {
    /// The line this value renders as.
    pub open spec fn text(&self) -> Seq<char> {
        "series: "@ + optional_decimal(self.series) + "\n"@
    }

    /// Renders the `series` line, with an empty value where there is none.
    pub fn render(&self) -> (out: String)
        ensures
            out@ == self.text(),
    {
        let mut out = String::new();
        out.append("series: ");
        push_optional_decimal(&mut out, self.series);
        out.append("\n");
        assert(out@ =~= self.text());
        out
    }
}

/// The volume of a work, where one was given.
#[derive(Clone, Copy, Debug, PartialEq, Eq, Structural)]
pub struct Volume {
    pub nb: Option<i64>,
}

impl From<Option<&String>> for Volume {
    fn from(s: Option<&String>) -> (out: Volume) {
        Volume { nb: read_optional_int(s) }
    }
}

impl vstd::std_specs::convert::FromSpecImpl<Option<&String>> for Volume {
    open spec fn obeys_from_spec() -> bool {
        true
    }

    open spec fn from_spec(s: Option<&String>) -> Volume {
        Volume { nb: optional_int(tag_text(s)) }
    }
}

impl Volume {
    /// The line this value renders as.
    pub open spec fn text(&self) -> Seq<char> {
        "volume: "@ + optional_decimal(self.nb) + "\n"@
    }

    /// Renders the `volume` line, with an empty value where there is none.
    pub fn render(&self) -> (out: String)
        ensures
            out@ == self.text(),
    {
        let mut out = String::new();
        out.append("volume: ");
        push_optional_decimal(&mut out, self.nb);
        out.append("\n");
        assert(out@ =~= self.text());
        out
    }
}

/// A digital object identifier, empty where none was given.
pub struct Doi {
    pub s: String,
}

impl View for Doi {
    type V = Seq<char>;

    open spec fn view(&self) -> Seq<char> {
        self.s@
    }
}

impl From<Option<&String>> for Doi {
    fn from(s: Option<&String>) -> (out: Doi)
        ensures
            out@ == optional_text(tag_text(s)),
    {
        match s {
            Some(text) => Doi { s: text.clone() },
            None => Doi { s: String::new() },
        }
    }
}

/// Equal texts do not make equal strings, so this conversion is stated over
/// the view, in the contract of `from`, and follows no spec function.
impl vstd::std_specs::convert::FromSpecImpl<Option<&String>> for Doi {
    open spec fn obeys_from_spec() -> bool {
        false
    }

    open spec fn from_spec(s: Option<&String>) -> Doi {
        arbitrary()
    }
}

/// The `doi` line of an identifier.
pub open spec fn doi_text(doi: Seq<char>) -> Seq<char> {
    "doi: \""@ + doi + "\"\n"@
}

impl Doi {
    /// The line this identifier renders as.
    pub open spec fn text(&self) -> Seq<char> {
        doi_text(self@)
    }

    /// Renders the `doi` line; the value is quoted even when it is empty.
    pub fn render(&self) -> (out: String)
        ensures
            out@ == self.text(),
    {
        let mut out = String::new();
        out.append("doi: \"");
        out.append(self.s.as_str());
        out.append("\"\n");
        assert(out@ =~= self.text());
        out
    }
}

/// The title of a work.
pub struct Title {
    pub title: String,
}

impl View for Title {
    type V = Seq<char>;

    open spec fn view(&self) -> Seq<char> {
        self.title@
    }
}

impl From<&String> for Title {
    fn from(s: &String) -> (out: Title) {
        Title { title: s.clone() }
    }
}

impl vstd::std_specs::convert::FromSpecImpl<&String> for Title {
    open spec fn obeys_from_spec() -> bool {
        true
    }

    open spec fn from_spec(s: &String) -> Title {
        Title { title: *s }
    }
}

/// The `title` line of a title.
pub open spec fn title_text(title: Seq<char>) -> Seq<char> {
    "title: \""@ + title + "\"\n"@
}

impl Title {
    /// The line this title renders as.
    pub open spec fn text(&self) -> Seq<char> {
        title_text(self@)
    }

    /// Renders the quoted `title` line.
    pub fn render(&self) -> (out: String)
        ensures
            out@ == self.text(),
    {
        let mut out = String::new();
        out.append("title: \"");
        out.append(self.title.as_str());
        out.append("\"\n");
        assert(out@ =~= self.text());
        out
    }
}

/// The abstract of a work, empty where none was given.
pub struct Abstract {
    pub abs: String,
}

impl View for Abstract {
    type V = Seq<char>;

    open spec fn view(&self) -> Seq<char> {
        self.abs@
    }
}

impl From<&String> for Abstract {
    fn from(s: &String) -> (out: Abstract) {
        Abstract { abs: s.clone() }
    }
}

impl vstd::std_specs::convert::FromSpecImpl<&String> for Abstract {
    open spec fn obeys_from_spec() -> bool {
        true
    }

    open spec fn from_spec(s: &String) -> Abstract {
        Abstract { abs: *s }
    }
}

/// The paragraph of an abstract: its text and a line feed.
pub open spec fn abstract_text(body: Seq<char>) -> Seq<char> {
    body + "\n"@
}

impl Abstract {
    /// The paragraph this abstract renders as.
    pub open spec fn text(&self) -> Seq<char> {
        abstract_text(self@)
    }

    /// Renders the abstract as a plain paragraph: a lone line feed when it is empty.
    pub fn render(&self) -> (out: String)
        ensures
            out@ == self.text(),
    {
        let mut out = String::new();
        out.append(self.abs.as_str());
        out.append("\n");
        assert(out@ =~= self.text());
        out
    }
}

/// The name of a venue.
pub struct Name {
    pub name: String,
}

impl View for Name {
    type V = Seq<char>;

    open spec fn view(&self) -> Seq<char> {
        self.name@
    }
}

impl From<&String> for Name {
    fn from(s: &String) -> (out: Name) {
        Name { name: s.clone() }
    }
}

impl vstd::std_specs::convert::FromSpecImpl<&String> for Name {
    open spec fn obeys_from_spec() -> bool {
        true
    }

    open spec fn from_spec(s: &String) -> Name {
        Name { name: *s }
    }
}

impl Name {
    /// The text this name renders as: the name itself.
    pub open spec fn text(&self) -> Seq<char> {
        self@
    }

    /// Renders the bare name.
    pub fn render(&self) -> (out: String)
        ensures
            out@ == self.text(),
    {
        self.name.clone()
    }
}

/// The address of a work on the web.
pub struct Url {
    pub link: String,
}

impl View for Url {
    type V = Seq<char>;

    open spec fn view(&self) -> Seq<char> {
        self.link@
    }
}

impl From<&String> for Url {
    fn from(s: &String) -> (out: Url) {
        Url { link: s.clone() }
    }
}

impl vstd::std_specs::convert::FromSpecImpl<&String> for Url {
    open spec fn obeys_from_spec() -> bool {
        true
    }

    open spec fn from_spec(s: &String) -> Url {
        Url { link: *s }
    }
}

/// The `www` line of an address.
pub open spec fn url_text(link: Seq<char>) -> Seq<char> {
    "www: \""@ + link + "\"\n"@
}

impl Url {
    /// The line this address renders as.
    pub open spec fn text(&self) -> Seq<char> {
        url_text(self@)
    }

    /// Renders the quoted `www` line.
    pub fn render(&self) -> (out: String)
        ensures
            out@ == self.text(),
    {
        let mut out = String::new();
        out.append("www: \"");
        out.append(self.link.as_str());
        out.append("\"\n");
        assert(out@ =~= self.text());
        out
    }
}

/// The publisher of a work, where one was given.
pub struct Publisher {
    pub publi: Option<String>,
}

impl View for Publisher {
    type V = Option<Seq<char>>;

    open spec fn view(&self) -> Option<Seq<char>> {
        match self.publi {
            Some(s) => Some(s@),
            None => None,
        }
    }
}

impl From<Option<&String>> for Publisher {
    fn from(s: Option<&String>) -> (out: Publisher) {
        match s {
            Some(text) => Publisher { publi: Some(text.clone()) },
            None => Publisher { publi: None },
        }
    }
}

impl vstd::std_specs::convert::FromSpecImpl<Option<&String>> for Publisher {
    open spec fn obeys_from_spec() -> bool {
        true
    }

    open spec fn from_spec(s: Option<&String>) -> Publisher {
        match s {
            Some(text) => Publisher { publi: Some(*text) },
            None => Publisher { publi: None },
        }
    }
}

/// The `publisher` line: the name in quotes, or an empty value without quotes.
pub open spec fn publisher_text(publisher: Option<Seq<char>>) -> Seq<char> {
    match publisher {
        Some(name) => "publisher: "@ + "\""@ + name + "\"\n"@,
        None => "publisher: "@ + "\n"@,
    }
}

impl Publisher {
    /// The line this publisher renders as.
    pub open spec fn text(&self) -> Seq<char> {
        publisher_text(self@)
    }

    /// Renders the `publisher` line: quoted when present, bare when absent.
    pub fn render(&self) -> (out: String)
        ensures
            out@ == self.text(),
    {
        let mut out = String::new();
        out.append("publisher: ");
        match &self.publi {
            Some(name) => {
                out.append("\"");
                out.append(name.as_str());
                out.append("\"\n");
            },
            None => {
                out.append("\n");
            },
        }
        assert(out@ =~= self.text());
        out
    }
}

/// Why an entry yields no record.
#[derive(Clone, Copy, Debug, PartialEq, Eq, Structural)]
pub enum EntryError {
    /// None of `journal`, `journaltitle` and `booktitle` is present.
    MissingVenue,
    /// Neither `date` nor `year` is present.
    MissingYear,
    /// There is no `author` tag.
    MissingAuthor,
    /// The text that should hold the year denotes no integer.
    InvalidYear,
    /// There is no `title` tag.
    MissingTitle,
    /// There is no `url` tag.
    MissingUrl,
}

/// The index of the first `-` of `s` at or after `from`, or the length of `s`
/// where there is none.
pub open spec fn first_dash(s: Seq<char>, from: int) -> int
    decreases s.len() - from,
{
    if from >= s.len() || s[from] == '-' {
        from
    } else {
        first_dash(s, from + 1)
    }
}

/// What stands before the first `-` of `s`: all of `s` where it holds none.
pub open spec fn before_dash(s: Seq<char>) -> Seq<char> {
    s.take(first_dash(s, 0))
}

/// The text that holds the year: the part of `date` before its first `-`
/// where there is a date, else the `year` tag, if any.
pub open spec fn year_source(date: Option<Seq<char>>, year: Option<Seq<char>>) -> Option<
    Seq<char>,
> {
    match date {
        Some(d) => Some(before_dash(d)),
        None => year,
    }
}

/// The year of an entry, or why it has none.
pub open spec fn year_of(date: Option<Seq<char>>, year: Option<Seq<char>>) -> Result<
    Year,
    EntryError,
> {
    match year_source(date, year) {
        None => Err(EntryError::MissingYear),
        Some(text) => match parsed_int(text) {
            Some(n) => Ok(Year { year: n }),
            None => Err(EntryError::InvalidYear),
        },
    }
}

/// The year in which a work was published.
#[derive(Clone, Copy, Debug, PartialEq, Eq, Structural)]
pub struct Year {
    pub year: i64,
}

/// Picks the text that holds the year out of the `date` and `year` tags.
pub fn find_year_text(date: Option<&String>, year: Option<&String>) -> (out: Option<Vec<char>>)
    ensures
        match year_source(tag_text(date), tag_text(year)) {
            Some(text) => out is Some && out->0@ == text,
            None => out is None,
        },
{
    match date {
        Some(d) => {
            let chars = chars_of(d.as_str());
            let mut i: usize = 0;
            while i < chars.len() && chars[i] != '-'
                invariant
                    i <= chars.len(),
                    first_dash(chars@, 0) == first_dash(chars@, i as int),
                decreases chars.len() - i,
            {
                i += 1;
            }
            Some(slice_of(&chars, 0, i))
        },
        None => match year {
            Some(y) => Some(chars_of(y.as_str())),
            None => None,
        },
    }
}

impl Year {
    /// Reads the text that holds a year.
    pub fn read(text: &Vec<char>) -> (out: Result<Year, EntryError>)
        ensures
            out == match parsed_int(text@) {
                Some(n) => Ok::<Year, EntryError>(Year { year: n }),
                None => Err(EntryError::InvalidYear),
            },
    {
        match parse_int(text) {
            Some(n) => Ok(Year { year: n }),
            None => Err(EntryError::InvalidYear),
        }
    }

    /// The year of an entry: from `date` where it is present, else from
    /// `year`. Fails where both are absent or the chosen text is no integer.
    pub fn parse(date: Option<&String>, year: Option<&String>) -> (out: Result<Year, EntryError>)
        ensures
            out == year_of(tag_text(date), tag_text(year)),
    {
        match find_year_text(date, year) {
            Some(text) => Year::read(&text),
            None => Err(EntryError::MissingYear),
        }
    }

    /// The line this year renders as.
    pub open spec fn text(&self) -> Seq<char> {
        "year: "@ + decimal(self.year as int) + "\n"@
    }

    /// Renders the `year` line.
    pub fn render(&self) -> (out: String)
        ensures
            out@ == self.text(),
    {
        let mut out = String::new();
        out.append("year: ");
        push_decimal(&mut out, self.year);
        out.append("\n");
        assert(out@ =~= self.text());
        out
    }
}

/// A venue as a value of the model: its kind and its name.
pub enum Venue {
    Journal(Seq<char>),
    Conference(Seq<char>),
}

/// The venue that the three venue tags denote: `journal` before
/// `journaltitle`, either of them a journal; else `booktitle`, a conference.
pub open spec fn venue_of(
    journal: Option<Seq<char>>,
    journaltitle: Option<Seq<char>>,
    booktitle: Option<Seq<char>>,
) -> Option<Venue> {
    match (journal, journaltitle, booktitle) {
        (Some(name), _, _) => Some(Venue::Journal(name)),
        (None, Some(name), _) => Some(Venue::Journal(name)),
        (None, None, Some(name)) => Some(Venue::Conference(name)),
        (None, None, None) => None,
    }
}

/// The block of a venue: its kind as the key, its quoted name, and a short
/// name that is always empty.
pub open spec fn venue_text(venue: Venue) -> Seq<char> {
    match venue {
        Venue::Journal(name) => "journal:\n  name: \""@ + name + "\"\n  shortname: \"\"\n"@,
        Venue::Conference(name) => "conference:\n  name: \""@ + name
            + "\"\n  shortname: \"\"\n"@,
    }
}

/// Where a work was published.
pub enum Place {
    Journal(Name),
    Conference(Name),
}

impl View for Place {
    type V = Venue;

    open spec fn view(&self) -> Venue {
        match self {
            Place::Journal(n) => Venue::Journal(n@),
            Place::Conference(n) => Venue::Conference(n@),
        }
    }
}

impl Place {
    /// Chooses the venue from the three venue tags; fails where all are absent.
    pub fn resolve(
        journal: Option<&String>,
        journaltitle: Option<&String>,
        booktitle: Option<&String>,
    ) -> (out: Result<Place, EntryError>)
        ensures
            match venue_of(tag_text(journal), tag_text(journaltitle), tag_text(booktitle)) {
                Some(venue) => out is Ok && out->Ok_0@ == venue,
                None => out is Err && out->Err_0 == EntryError::MissingVenue,
            },
    {
        match journal {
            Some(name) => Ok(Place::Journal(Name::from(name))),
            None => match journaltitle {
                Some(name) => Ok(Place::Journal(Name::from(name))),
                None => match booktitle {
                    Some(name) => Ok(Place::Conference(Name::from(name))),
                    None => Err(EntryError::MissingVenue),
                },
            },
        }
    }

    /// The block this venue renders as.
    pub open spec fn text(&self) -> Seq<char> {
        venue_text(self@)
    }

    /// Renders the `journal` or `conference` block.
    pub fn render(&self) -> (out: String)
        ensures
            out@ == self.text(),
    {
        let mut out = String::new();
        match self {
            Place::Journal(n) => {
                out.append("journal:\n  name: \"");
                out.append(n.render().as_str());
                out.append("\"\n  shortname: \"\"\n");
            },
            Place::Conference(n) => {
                out.append("conference:\n  name: \"");
                out.append(n.render().as_str());
                out.append("\"\n  shortname: \"\"\n");
            },
        }
        assert(out@ =~= self.text());
        out
    }
}

/// Where a date is present it alone decides the year: the `year` tag is not
/// looked at. Without a date the `year` tag decides, and with neither there
/// is no year.
pub proof fn lemma_date_wins(date: Option<Seq<char>>, year: Option<Seq<char>>, other: Option<Seq<char>>)
    ensures
        date is Some ==> year_of(date, year) == year_of(date, other),
        date is Some ==> year_source(date, year) == Some(before_dash(date->0)),
        date is None ==> year_source(date, year) == year,
        date is None && year is None ==> year_of(date, year) == Err::<Year, EntryError>(
            EntryError::MissingYear,
        ),
{
}

/// A journal name decides the venue whatever the other two tags hold; a
/// journal title decides it where there is no journal; a book title makes a
/// conference only where both are absent; and without all three there is no
/// venue.
pub proof fn lemma_venue_precedence(
    journal: Option<Seq<char>>,
    journaltitle: Option<Seq<char>>,
    booktitle: Option<Seq<char>>,
)
    ensures
        journal is Some ==> venue_of(journal, journaltitle, booktitle) == Some(
            Venue::Journal(journal->0),
        ),
        journal is None && journaltitle is Some ==> venue_of(journal, journaltitle, booktitle)
            == Some(Venue::Journal(journaltitle->0)),
        journal is None && journaltitle is None && booktitle is Some ==> venue_of(
            journal,
            journaltitle,
            booktitle,
        ) == Some(Venue::Conference(booktitle->0)),
        venue_of(journal, journaltitle, booktitle) is None <==> journal is None
            && journaltitle is None && booktitle is None,
{
}

/// A segment that holds no comma is displayed as it stands, but for the
/// white space at its ends.
pub proof fn lemma_no_comma_passes_through(segment: Seq<char>)
    requires
        !segment.contains(','),
    ensures
        display_name(segment) == trimmed(segment),
{
    let comma = seq![','];
    assert forall|i: int| !matches_at(segment, comma, i) by {
        if matches_at(segment, comma, i) {
            assert(segment.subrange(i, i + 1)[0] == segment[i]);
            assert(comma[0] == ',');
            assert(segment.contains(segment[i]));
        }
    }
    lemma_unbroken(segment, comma, 0, 0);
    assert(segment.subrange(0, segment.len() as int) =~= segment);
    let only = seq![segment];
    assert(only.reverse() =~= only);
}

/// The authors come out one per segment of the list, in the order of the
/// segments.
pub proof fn lemma_author_order(raw: Seq<char>, i: int)
    requires
        0 <= i < pieces(spaced(raw), name_separator()).len(),
    ensures
        author_names(raw).len() == pieces(spaced(raw), name_separator()).len(),
        author_names(raw)[i] == display_name(pieces(spaced(raw), name_separator())[i]),
{
}

} // verus!
