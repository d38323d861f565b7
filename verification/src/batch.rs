//! A whole bibliography: the blocks of its entries one after another, up to
//! the first entry that yields no record.

use crate::entry::{entry_tags, tags_of, RawTags, TagTexts};
use crate::fields::EntryError;
use crate::paper::{glued, record_of, record_text, Paper};
use nom_bibtex::Bibliography;
use vstd::prelude::*;
use vstd::string::*;

verus! {

/// The index of the first entry at or after `from` that yields no record, or
/// the number of entries where every one of them yields a record.
pub open spec fn first_failure(entries: Seq<TagTexts>, from: int) -> int
    decreases entries.len() - from,
{
    if from >= entries.len() || record_of(entries[from]) is Err {
        from
    } else {
        first_failure(entries, from + 1)
    }
}

/// The blocks of the first `n` entries, in order.
pub open spec fn blocks(entries: Seq<TagTexts>, n: int) -> Seq<Seq<char>> {
    Seq::new(n as nat, |i: int| record_text(record_of(entries[i])->Ok_0))
}

/// What is written for a bibliography: the blocks of the entries before the
/// first failure, with nothing between them.
pub open spec fn batch_text(entries: Seq<TagTexts>) -> Seq<char> {
    glued(blocks(entries, first_failure(entries, 0)))
}

/// The reason for which the first failing entry yields no record.
pub open spec fn batch_failure(entries: Seq<TagTexts>) -> Option<EntryError> {
    let stop = first_failure(entries, 0);
    if stop < entries.len() {
        Some(record_of(entries[stop])->Err_0)
    } else {
        None
    }
}

/// The views of a vector of raw tags.
pub open spec fn tag_views(entries: Seq<RawTags>) -> Seq<TagTexts> {
    Seq::new(entries.len(), |i: int| entries[i]@)
}

/// The tags of interest of each parsed entry.
pub open spec fn entry_views(entries: Seq<Bibliography>) -> Seq<TagTexts> {
    Seq::new(entries.len(), |i: int| tags_of(entry_tags(entries[i])))
}

/// The outcome for a bibliography: the text to write, and the failure that
/// ended the run, if one did.
pub struct Batch {
    pub text: String,
    pub failure: Option<EntryError>,
}

/// Renders the entries in order, one block each, and stops at the first one
/// that yields no record: the blocks before it are kept, the entries after
/// it are not looked at.
pub fn render_batch(entries: &Vec<RawTags>) -> (out: Batch)
    ensures
        out.text@ == batch_text(tag_views(entries@)),
        out.failure == batch_failure(tag_views(entries@)),
{
    let ghost all = tag_views(entries@);
    let mut text = String::new();
    let mut i: usize = 0;
    assert(blocks(all, 0) =~= Seq::<Seq<char>>::empty());
    while i < entries.len()
        invariant
            i <= entries.len(),
            all == tag_views(entries@),
            first_failure(all, 0) == first_failure(all, i as int),
            text@ == glued(blocks(all, i as int)),
        decreases entries.len() - i,
    {
        assert(all[i as int] == entries@[i as int]@);
        match Paper::from_tags(&entries[i]) {
            Ok(paper) => {
                text.append(paper.render().as_str());
                proof {
                    let head = blocks(all, i + 1);
                    assert(head.drop_last() =~= blocks(all, i as int));
                    assert(head.last() == paper.text());
                }
            },
            Err(e) => {
                return Batch { text, failure: Some(e) };
            },
        }
        i += 1;
    }
    Batch { text, failure: None }
}

/// Renders the parsed entries of a bibliography, as `render_batch` does for
/// the tags that they hold.
pub fn render_entries(entries: &Vec<Bibliography>) -> (out: Batch)
    ensures
        out.text@ == batch_text(entry_views(entries@)),
        out.failure == batch_failure(entry_views(entries@)),
{
    let ghost all = entry_views(entries@);
    let mut text = String::new();
    let mut i: usize = 0;
    assert(blocks(all, 0) =~= Seq::<Seq<char>>::empty());
    while i < entries.len()
        invariant
            i <= entries.len(),
            all == entry_views(entries@),
            first_failure(all, 0) == first_failure(all, i as int),
            text@ == glued(blocks(all, i as int)),
        decreases entries.len() - i,
    {
        assert(all[i as int] == tags_of(entry_tags(entries@[i as int])));
        match Paper::from_entry(&entries[i]) {
            Ok(paper) => {
                text.append(paper.render().as_str());
                proof {
                    let head = blocks(all, i + 1);
                    assert(head.drop_last() =~= blocks(all, i as int));
                    assert(head.last() == paper.text());
                }
            },
            Err(e) => {
                return Batch { text, failure: Some(e) };
            },
        }
        i += 1;
    }
    Batch { text, failure: None }
}

} // verus!
