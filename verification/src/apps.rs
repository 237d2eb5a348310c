//! The application list: a text with one line per installed application,
//! each line the application's name and its icon name joined by a separator.

use crate::text::{
    first_match, is_first_match, lemma_first_match_none, lemma_first_match_some,
    lemma_split_on_has_a_field, lines_of, occurs, split, split_lines, split_on, texts,
};
use vstd::prelude::*;

verus! {

/// What stands between an application's name and its icon name.
pub const SEPARATOR: &'static str = " ##&## ";

/// The separator as a sequence of characters.
pub open spec fn separator() -> Seq<char> {
    SEPARATOR@
}

/// One application of the list.
#[derive(Clone, Debug, PartialEq, Eq)]
pub struct AppEntry {
    pub name: String,
    pub icon: String,
}

/// What an [`AppEntry`] holds.
pub struct AppEntryView {
    pub name: Seq<char>,
    pub icon: Seq<char>,
}

impl View for AppEntry {
    type V = AppEntryView;

    open spec fn view(&self) -> AppEntryView {
        AppEntryView { name: self.name@, icon: self.icon@ }
    }
}

/// A line of the list that does not hold exactly a name and an icon name.
#[derive(Clone, Copy, Debug, PartialEq, Eq)]
pub struct MalformedLine {
    /// The line's position in the list, counted from zero.
    pub index: usize,
    /// The number of fields that the line has.
    pub fields: usize,
}

/// The fields of a line: the pieces between its separators.
pub open spec fn fields_of(line: Seq<char>) -> Seq<Seq<char>> {
    split_on(line, separator())
}

/// A line is well formed when it has exactly two fields.
pub open spec fn well_formed_line(line: Seq<char>) -> bool {
    fields_of(line).len() == 2
}

/// The separator occurs in `line`, leftmost at `i`, and not again in what
/// follows that occurrence.
pub open spec fn splits_at(line: Seq<char>, i: int) -> bool {
    &&& is_first_match(line, separator(), i)
    &&& !occurs(line.skip(i + separator().len()), separator())
}

/// The application that a well-formed line names.
pub open spec fn entry_of(line: Seq<char>) -> AppEntryView {
    AppEntryView { name: fields_of(line)[0], icon: fields_of(line)[1] }
}

/// A list is well formed when each of its lines is.
pub open spec fn well_formed(list: Seq<char>) -> bool {
    forall|i: int| 0 <= i < lines_of(list).len() ==> well_formed_line(#[trigger] lines_of(list)[i])
}

/// Line `i` is the first line of the list that is not well formed.
pub open spec fn is_first_malformed(list: Seq<char>, i: int) -> bool {
    &&& 0 <= i < lines_of(list).len()
    &&& !well_formed_line(lines_of(list)[i])
    &&& forall|j: int| 0 <= j < i ==> well_formed_line(#[trigger] lines_of(list)[j])
}

/// The applications of a well-formed list, one per line, in the order of the
/// lines.
pub open spec fn entries_of(list: Seq<char>) -> Seq<AppEntryView> {
    Seq::new(lines_of(list).len(), |i: int| entry_of(lines_of(list)[i]))
}

/// What each entry of `apps` holds, in order.
pub open spec fn entry_views(apps: Seq<AppEntry>) -> Seq<AppEntryView> {
    Seq::new(apps.len(), |i: int| apps[i]@)
}

/// Splits a line of the list into its fields.
pub fn split_fields(line: &str) -> (fields: Vec<String>)
    ensures
        texts(fields@) == fields_of(line@),
{
    proof {
        reveal_strlit(" ##&## ");
    }
    split(line, SEPARATOR)
}

/// Reads one line of the list. A line with another number of fields than two
/// is refused, with that number.
pub fn parse_app_line(line: &str) -> (r: Result<AppEntry, usize>)
    ensures
        match r {
            Ok(app) => well_formed_line(line@) && app@ == entry_of(line@),
            Err(n) => n == fields_of(line@).len() && n != 2,
        },
{
    let mut fields = split_fields(line);
    let n = fields.len();
    if n != 2 {
        return Err(n);
    }
    let icon = fields.pop().unwrap();
    let name = fields.pop().unwrap();
    Ok(AppEntry { name, icon })
}

/// Reads the whole list. The first line that is not well formed, if there is
/// one, is reported in place of the applications.
pub fn parse_app_list(list: &str) -> (r: Result<Vec<AppEntry>, MalformedLine>)
    ensures
        match r {
            Ok(apps) => well_formed(list@) && entry_views(apps@) == entries_of(list@),
            Err(e) => {
                &&& is_first_malformed(list@, e.index as int)
                &&& e.fields == fields_of(lines_of(list@)[e.index as int]).len()
            },
        },
{
    let lines = split_lines(list);
    let mut apps: Vec<AppEntry> = Vec::new();
    let mut i: usize = 0;
    while i < lines.len()
        invariant
            i <= lines.len(),
            texts(lines@) == lines_of(list@),
            apps.len() == i,
            forall|j: int| 0 <= j < i ==> well_formed_line(#[trigger] lines_of(list@)[j]),
            forall|j: int| 0 <= j < i ==> (#[trigger] apps@[j])@ == entry_of(lines_of(list@)[j]),
        decreases lines.len() - i,
    {
        match parse_app_line(lines[i].as_str()) {
            Ok(app) => {
                apps.push(app);
            },
            Err(n) => {
                return Err(MalformedLine { index: i, fields: n });
            },
        }
        i += 1;
    }
    Ok(apps)
}

/// A line is well formed exactly when the separator occurs in it once: at
/// some place, and not again behind that. The name is then what stands
/// before the separator, the icon name what stands behind it.
pub proof fn lemma_well_formed_line(line: Seq<char>)
    ensures
        well_formed_line(line) <==> exists|i: int| splits_at(line, i),
        forall|i: int| #[trigger]
            splits_at(line, i) ==> entry_of(line) == (AppEntryView {
                name: line.take(i),
                icon: line.skip(i + separator().len()),
            }),
{
    reveal_strlit(" ##&## ");
    let sep = separator();
    lemma_first_match_none(line, sep);
    assert forall|i: int| #[trigger] splits_at(line, i) implies fields_of(line) == seq![
        line.take(i),
        line.skip(i + sep.len()),
    ] by {
        lemma_first_match_some(line, sep, i);
        lemma_first_match_none(line.skip(i + sep.len()), sep);
        assert(split_on(line.skip(i + sep.len()), sep) == seq![line.skip(i + sep.len())]);
    }
    if well_formed_line(line) {
        let i = first_match(line, sep)->0;
        let rest = line.skip(i + sep.len());
        lemma_first_match_none(rest, sep);
        if first_match(rest, sep) is Some {
            let k = first_match(rest, sep)->0;
            lemma_split_on_has_a_field(rest.skip(k + sep.len()), sep);
            assert(split_on(rest, sep).len() >= 2);
        }
        assert(splits_at(line, i));
    }
}

/// A list has one first malformed line at most, so what a malformed list is
/// refused with is settled by the list.
pub proof fn lemma_first_malformed_is_unique(list: Seq<char>, i: int, j: int)
    requires
        is_first_malformed(list, i),
        is_first_malformed(list, j),
    ensures
        i == j,
{
}

} // verus!
