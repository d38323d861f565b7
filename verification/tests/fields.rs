use bibfront::fields::{
    format_author, Abstract, Authors, Doi, EntryError, Name, Pages, Place, Publisher, Series,
    Title, Url, Volume, Year,
};
use bibfront::number::parse_int;
use bibfront::text::{chars_of, join, replace_newlines, split_on, string_of, trim};

fn s(text: &str) -> String {
    text.to_string()
}

fn cs(text: &str) -> Vec<char> {
    text.chars().collect()
}

#[test]
fn authors_are_reordered() {
    let a = Authors::from_string(&s("Doe, John and Smith, Jane"));
    assert_eq!(a.authors, vec![s("John Doe"), s("Jane Smith")]);
}

#[test]
fn author_without_comma_passes_through() {
    let a = Authors::from_string(&s("John Doe"));
    assert_eq!(a.authors, vec![s("John Doe")]);
}

#[test]
fn author_middle_names_follow_the_first_name() {
    let a = Authors::from_string(&s("Knuth, Donald Ervin"));
    assert_eq!(a.authors, vec![s("Donald Ervin Knuth")]);
}

#[test]
fn author_with_suffix_reverses_every_fragment() {
    let a = Authors::from_string(&s("King, Jr., Martin"));
    assert_eq!(a.authors, vec![s("Martin  Jr. King")]);
}

#[test]
fn author_list_wrapped_over_lines() {
    let a = Authors::from_string(&s("Doe, John and\nSmith, Jane\nand Roe, Richard"));
    assert_eq!(a.authors, vec![s("John Doe"), s("Jane Smith"), s("Richard Roe")]);
}

#[test]
fn author_name_holding_the_delimiter_is_split() {
    let a = Authors::from_string(&s("Simon and Garfunkel and Sons, Ltd"));
    assert_eq!(a.authors, vec![s("Simon"), s("Garfunkel"), s("Ltd Sons")]);
}

#[test]
fn author_word_that_only_contains_and_is_kept() {
    let a = Authors::from_string(&s("Anderson, Sandy"));
    assert_eq!(a.authors, vec![s("Sandy Anderson")]);
}

#[test]
fn empty_author_text_is_one_empty_author() {
    let a = Authors::from_string(&s(""));
    assert_eq!(a.authors, vec![s("")]);
}

#[test]
fn authors_agree_with_the_standard_library() {
    for raw in [
        "Doe, John and Smith, Jane",
        " and ",
        "a and  and b",
        ",",
        "x,,y",
        "  Doe ,  John  ",
        "\u{a0}Doe,\tJohn\u{2003}",
        "Mu\u{308}ller, J\u{fc}rgen and \u{8d8a}, \u{5357}",
        "A and and B",
    ] {
        let flat = raw.replace("\n", " ");
        let expected: Vec<String> = flat
            .split(" and ")
            .map(|seg| {
                seg.split(',')
                    .rev()
                    .fold(String::new(), |mut acc, part| {
                        acc.push(' ');
                        acc.push_str(part);
                        acc
                    })
                    .trim()
                    .to_string()
            })
            .collect();
        assert_eq!(Authors::from_string(&s(raw)).authors, expected, "{:?}", raw);
    }
}

#[test]
fn authors_render_as_quoted_items() {
    let a = Authors::from_string(&s("Doe, John and Smith, Jane"));
    assert_eq!(a.render(), "authors:\n  - \"John Doe\"\n  - \"Jane Smith\"\n");
}

#[test]
fn format_author_trims_the_result() {
    assert_eq!(format_author(&cs("  Doe , John ")), cs("John    Doe"));
}

#[test]
fn pages_from_a_range() {
    let p = Pages::from_string(&s("123-145"));
    assert_eq!(p.from, Some(123));
    assert_eq!(p.to, Some(145));
}

#[test]
fn pages_take_the_first_two_digit_runs() {
    let p = Pages::from_string(&s("p. 12, 34"));
    assert_eq!(p, Pages { from: Some(12), to: Some(34) });
    let q = Pages::from_string(&s("1--2--3"));
    assert_eq!(q, Pages { from: Some(1), to: Some(2) });
}

#[test]
fn pages_from_empty_text_are_absent() {
    assert_eq!(Pages::from_string(&s("")), Pages { from: None, to: None });
    assert_eq!(Pages::default(), Pages { from: None, to: None });
}

#[test]
fn pages_with_one_number_have_no_end() {
    assert_eq!(Pages::from_string(&s("e42")), Pages { from: Some(42), to: None });
}

#[test]
fn pages_with_an_en_dash() {
    assert_eq!(Pages::from_string(&s("7\u{2013}19")), Pages { from: Some(7), to: Some(19) });
}

#[test]
fn pages_skip_a_run_that_is_too_large() {
    let p = Pages::from_string(&s("99999999999999999999-5-6"));
    assert_eq!(p, Pages { from: Some(5), to: Some(6) });
    let q = Pages::from_string(&s("9223372036854775807,9223372036854775808,007"));
    assert_eq!(q, Pages { from: Some(9223372036854775807), to: Some(7) });
}

#[test]
fn pages_agree_with_the_standard_library() {
    for raw in ["123-145", "p. 12, 34", "", "--", "a1b22c333", "00012", "1\u{661}2", "+5-6"] {
        let mut numbers = raw
            .split(|c: char| !c.is_ascii_digit())
            .filter_map(|t| t.parse::<i64>().ok());
        let from = numbers.next();
        let to = numbers.next();
        assert_eq!(Pages::from_string(&s(raw)), Pages { from, to }, "{:?}", raw);
    }
}

#[test]
fn pages_render_with_and_without_numbers() {
    assert_eq!(Pages { from: Some(3), to: Some(14) }.render(), "page:\n  from: 3\n  to: 14\n");
    assert_eq!(Pages { from: Some(3), to: None }.render(), "page:\n  from: 3\n  to: \n");
    assert_eq!(Pages::default().render(), "page:\n  from: \n  to: \n");
}

#[test]
fn volume_and_series_are_lenient() {
    assert_eq!(Volume::from(Some(&s("12"))), Volume { nb: Some(12) });
    assert_eq!(Volume::from(Some(&s("XII"))), Volume { nb: None });
    assert_eq!(Volume::from(Some(&s(" 12"))), Volume { nb: None });
    assert_eq!(Volume::from(None), Volume { nb: None });
    assert_eq!(Series::from(Some(&s("-3"))), Series { series: Some(-3) });
    assert_eq!(Series::from(Some(&s("3a"))), Series { series: None });
    assert_eq!(Series::from(None), Series { series: None });
}

#[test]
fn volume_and_series_render() {
    assert_eq!(Volume { nb: Some(7) }.render(), "volume: 7\n");
    assert_eq!(Volume { nb: None }.render(), "volume: \n");
    assert_eq!(Series { series: Some(-40) }.render(), "series: -40\n");
    assert_eq!(Series { series: None }.render(), "series: \n");
}

#[test]
fn parse_int_agrees_with_the_standard_library() {
    for raw in [
        "", "0", "-0", "+0", "7", "+7", "-7", "007", "--7", "+-7", "-", "+", " 7", "7 ", "1_000",
        "12a", "a12", "9223372036854775807", "9223372036854775808", "-9223372036854775808",
        "-9223372036854775809", "+9223372036854775807", "99999999999999999999999999",
        "-99999999999999999999999999", "00000000000000000000000000000000000001", "\u{661}",
        "1.5", "0x10",
    ] {
        assert_eq!(parse_int(&cs(raw)), raw.parse::<i64>().ok(), "{:?}", raw);
    }
}

#[test]
fn year_prefers_the_date() {
    assert_eq!(Year::parse(Some(&s("2021-05-01")), Some(&s("1999"))), Ok(Year { year: 2021 }));
    assert_eq!(Year::parse(Some(&s("2021")), None), Ok(Year { year: 2021 }));
}

#[test]
fn year_falls_back_to_the_year_tag() {
    assert_eq!(Year::parse(None, Some(&s("2020"))), Ok(Year { year: 2020 }));
}

#[test]
fn year_is_needed() {
    assert_eq!(Year::parse(None, None), Err(EntryError::MissingYear));
}

#[test]
fn year_must_be_an_integer() {
    assert_eq!(Year::parse(None, Some(&s("MMXX"))), Err(EntryError::InvalidYear));
    assert_eq!(Year::parse(Some(&s("-05-01")), Some(&s("1999"))), Err(EntryError::InvalidYear));
    assert_eq!(Year::parse(Some(&s("May 2021")), Some(&s("1999"))), Err(EntryError::InvalidYear));
    assert_eq!(Year::read(&cs("")), Err(EntryError::InvalidYear));
    assert_eq!(Year::read(&cs("476")), Ok(Year { year: 476 }));
}

#[test]
fn year_renders_in_decimal() {
    assert_eq!(Year { year: 2020 }.render(), "year: 2020\n");
    assert_eq!(Year { year: 0 }.render(), "year: 0\n");
    assert_eq!(Year { year: -44 }.render(), "year: -44\n");
    assert_eq!(Year { year: i64::MIN }.render(), "year: -9223372036854775808\n");
    assert_eq!(Year { year: i64::MAX }.render(), "year: 9223372036854775807\n");
    for n in [1i64, 9, 10, 11, 99, 100, 101, 1000, 12345678901, -1, -10, -109] {
        assert_eq!(Year { year: n }.render(), format!("year: {}\n", n));
    }
}

#[test]
fn venue_prefers_the_journal() {
    let p = Place::resolve(Some(&s("X")), None, Some(&s("Y"))).unwrap();
    assert!(matches!(&p, Place::Journal(n) if n.name == "X"));
    let q = Place::resolve(Some(&s("X")), Some(&s("Z")), Some(&s("Y"))).unwrap();
    assert!(matches!(&q, Place::Journal(n) if n.name == "X"));
}

#[test]
fn venue_takes_the_journal_title_next() {
    let p = Place::resolve(None, Some(&s("Z")), Some(&s("Y"))).unwrap();
    assert!(matches!(&p, Place::Journal(n) if n.name == "Z"));
}

#[test]
fn venue_from_a_book_title_is_a_conference() {
    let p = Place::resolve(None, None, Some(&s("Y"))).unwrap();
    assert!(matches!(&p, Place::Conference(n) if n.name == "Y"));
}

#[test]
fn venue_is_needed() {
    assert!(matches!(Place::resolve(None, None, None), Err(EntryError::MissingVenue)));
}

#[test]
fn venue_renders_under_its_kind() {
    let j = Place::Journal(Name::from(&s("J. Test")));
    assert_eq!(j.render(), "journal:\n  name: \"J. Test\"\n  shortname: \"\"\n");
    let c = Place::Conference(Name::from(&s("Conf")));
    assert_eq!(c.render(), "conference:\n  name: \"Conf\"\n  shortname: \"\"\n");
    assert_eq!(Name::from(&s("N")).render(), "N");
}

#[test]
fn free_text_fields_copy_their_tag() {
    assert_eq!(Doi::from(Some(&s("10.1/x"))).s, "10.1/x");
    assert_eq!(Doi::from(None).s, "");
    assert_eq!(Title::from(&s("A Title")).title, "A Title");
    assert_eq!(Abstract::from(&s("Body")).abs, "Body");
    assert_eq!(Url::from(&s("http://x")).link, "http://x");
    assert_eq!(Publisher::from(Some(&s("ACM"))).publi, Some(s("ACM")));
    assert_eq!(Publisher::from(None).publi, None);
}

#[test]
fn free_text_fields_render() {
    assert_eq!(Doi::from(Some(&s("10.1/x"))).render(), "doi: \"10.1/x\"\n");
    assert_eq!(Doi::from(None).render(), "doi: \"\"\n");
    assert_eq!(Title::from(&s("A Title")).render(), "title: \"A Title\"\n");
    assert_eq!(Abstract::from(&s("Body")).render(), "Body\n");
    assert_eq!(Abstract::from(&s("")).render(), "\n");
    assert_eq!(Url::from(&s("http://x")).render(), "www: \"http://x\"\n");
    assert_eq!(Publisher::from(Some(&s("ACM"))).render(), "publisher: \"ACM\"\n");
    assert_eq!(Publisher::from(None).render(), "publisher: \n");
}

#[test]
fn text_helpers_on_given_values() {
    assert_eq!(chars_of("h\u{e9}!"), vec!['h', '\u{e9}', '!']);
    assert_eq!(string_of(&vec!['h', '\u{e9}', '!']), "h\u{e9}!");
    assert_eq!(replace_newlines(&cs("a\nb\r\nc")), cs("a b\r c"));
    assert_eq!(trim(&cs(" \t a b \n")), cs("a b"));
    assert_eq!(trim(&cs("   ")), cs(""));
    assert_eq!(trim(&cs("")), cs(""));
    assert_eq!(split_on(&cs("a, b,,c"), &cs(",")), vec![cs("a"), cs(" b"), cs(""), cs("c")]);
    assert_eq!(split_on(&cs("aaa"), &cs("aa")), vec![cs(""), cs("a")]);
    assert_eq!(split_on(&cs(""), &cs("aa")), vec![cs("")]);
    assert_eq!(split_on(&cs("xab"), &cs("ab")), vec![cs("x"), cs("")]);
    assert_eq!(split_on(&cs("xab"), &cs("")), vec![cs("xab")]);
    assert_eq!(split_on(&cs("ab"), &cs("abc")), vec![cs("ab")]);
    assert_eq!(join(&vec![cs("a"), cs(""), cs("bc")], '-'), cs("a--bc"));
    assert_eq!(join(&vec![], '-'), cs(""));
}

#[test]
fn trim_agrees_with_the_standard_library() {
    for raw in ["", " ", " a ", "\u{a0}a\u{3000}", "\u{200b}a", "\u{85}x\u{2028}", "a b", "\na\r"] {
        assert_eq!(string_of(&trim(&cs(raw))), raw.trim(), "{:?}", raw);
    }
}
