//! TOML documents, read with `toml_edit`: as much of them as a configuration needs.
use crate::text::{opt_view, res_view, same};
use vstd::prelude::*;

verus! {

/// A value of a TOML document.
#[derive(Debug)]
pub enum Toml {
    Str(String),
    /// A table with its entries.
    Table(Vec<(String, Toml)>),
    /// A table within a line, with the entries that are strings.
    Inline(Vec<(String, Option<String>)>),
    /// Any other value.
    Other,
}

/// The model of a value.
pub enum TomlView {
    Str(Seq<char>),
    Table(Seq<(Seq<char>, TomlView)>),
    Inline(Seq<(Seq<char>, Option<Seq<char>>)>),
    Other,
}

/// The model of a value.
pub open spec fn toml_view(toml: Toml) -> TomlView
    decreases toml,
{
    match toml {
        Toml::Str(s) => TomlView::Str(s@),
        Toml::Table(entries) => TomlView::Table(
            Seq::new(
                entries@.len(),
                |i: int|
                    if 0 <= i < entries@.len() {
                        (entries@[i].0@, toml_view(entries@[i].1))
                    } else {
                        (Seq::empty(), TomlView::Other)
                    },
            ),
        ),
        Toml::Inline(entries) => TomlView::Inline(
            Seq::new(entries@.len(), |i: int| (entries@[i].0@, opt_view(entries@[i].1))),
        ),
        Toml::Other => TomlView::Other,
    }
}

impl View for Toml {
    type V = TomlView;

    open spec fn view(&self) -> TomlView {
        toml_view(*self)
    }
}

/// The models of the entries of a table.
pub open spec fn entries_view(entries: Seq<(String, Toml)>) -> Seq<(Seq<char>, TomlView)> {
    Seq::new(entries.len(), |i: int| (entries[i].0@, entries[i].1@))
}

/// The model of a table is the sequence of the models of its entries.
pub proof fn lemma_table_view(entries: Vec<(String, Toml)>)
    ensures
        Toml::Table(entries)@ == TomlView::Table(entries_view(entries@)),
{
    let v = Toml::Table(entries)@;
    assert(v->Table_0 =~= entries_view(entries@));
}

/// What `toml_edit` reads from a text: the table of the document, or the text of its error.
pub uninterp spec fn toml_reading(text: Seq<char>) -> Result<TomlView, Seq<char>>;

#[verifier::external_type_specification]
#[verifier::external_body]
pub struct ExItem(toml_edit::Item);

#[verifier::external_type_specification]
#[verifier::external_body]
pub struct ExTable(toml_edit::Table);

/// Turns a `toml_edit::Table` into its entries, as `Table::iter` gives them. Nothing is claimed of
/// it here: the function that reads text states what it hands on.
#[verifier::external_body]
fn entries_of_table(table: &toml_edit::Table) -> Vec<(String, Toml)> {
    table.iter().map(|(name, item)| (name.to_owned(), toml_of_item(item))).collect()
}

/// Turns a `toml_edit::Item` into a `Toml`, variant by variant. Nothing is claimed of it here: the
/// function that reads text states what it hands on.
#[verifier::external_body]
fn toml_of_item(item: &toml_edit::Item) -> Toml {
    match item {
        toml_edit::Item::Table(table) => Toml::Table(entries_of_table(table)),
        toml_edit::Item::Value(toml_edit::Value::String(s)) => Toml::Str(s.value().clone()),
        toml_edit::Item::Value(toml_edit::Value::InlineTable(table)) => Toml::Inline(
            table.iter().map(
                |(name, value)| (name.to_owned(), value.as_str().map(str::to_owned)),
            ).collect(),
        ),
        _ => Toml::Other,
    }
}

/// Reads a document with `toml_edit::DocumentMut`'s `FromStr`. The result is a function of the text
/// alone: the table of the document, or what the error displays.
#[verifier::external_body]
fn read_document(text: &str) -> (r: Result<Toml, String>)
    ensures
        res_view(r) == toml_reading(text@),
{
    match text.parse::<toml_edit::DocumentMut>() {
        Ok(document) => Ok(Toml::Table(entries_of_table(document.as_table()))),
        Err(error) => Err(error.to_string()),
    }
}

/// Reads a document, or says why the text is none.
pub fn parse_toml(text: &str) -> (r: Result<Toml, String>)
    ensures
        res_view(r) == toml_reading(text@),
{
    read_document(text)
}

/// The entry of that name.
pub open spec fn entry_named(entries: Seq<(Seq<char>, TomlView)>, name: Seq<char>) -> Option<
    TomlView,
>
    decreases entries.len(),
{
    if entries.len() == 0 {
        None
    } else if entries.last().0 == name {
        Some(entries.last().1)
    } else {
        entry_named(entries.drop_last(), name)
    }
}

impl TomlView {
    /// The entry of that name, of a table.
    pub open spec fn get(self, name: Seq<char>) -> Option<TomlView> {
        match self {
            TomlView::Table(entries) => entry_named(entries, name),
            _ => None,
        }
    }

    /// The text of a string.
    pub open spec fn as_str(self) -> Option<Seq<char>> {
        match self {
            TomlView::Str(s) => Some(s),
            _ => None,
        }
    }

    /// The text of the string of that name.
    pub open spec fn get_str(self, name: Seq<char>) -> Option<Seq<char>> {
        match self.get(name) {
            Some(value) => value.as_str(),
            None => None,
        }
    }

    /// The table of that name within the table of another name.
    pub open spec fn table_in(self, group: Seq<char>, name: Seq<char>) -> Option<TomlView> {
        match self.get(group) {
            Some(tables) => match tables.get(name) {
                Some(TomlView::Table(entries)) => Some(TomlView::Table(entries)),
                _ => None,
            },
            None => None,
        }
    }
}

impl Toml {
    /// The entry of that name, of a table.
    pub fn get<'a>(&'a self, name: &str) -> (r: Option<&'a Toml>)
        ensures
            opt_view(r) == self@.get(name@),
    {
        match self {
            Toml::Table(entries) => {
                proof {
                    lemma_table_view(*entries);
                }
                let ghost all = entries_view(entries@);
                let mut i: usize = entries.len();
                assert(all.take(all.len() as int) == all);
                while i > 0
                    invariant
                        i <= entries.len(),
                        all == entries_view(entries@),
                        self@ == TomlView::Table(all),
                        entry_named(all.take(i as int), name@) == self@.get(name@),
                    decreases i,
                {
                    assert(all.take(i as int).drop_last() == all.take(i - 1));
                    i -= 1;
                    if same(entries[i].0.as_str(), name) {
                        return Some(&entries[i].1);
                    }
                }
                None
            },
            _ => None,
        }
    }

    /// The text of a string.
    pub fn as_str<'a>(&'a self) -> (r: Option<&'a str>)
        ensures
            opt_view(r) == self@.as_str(),
    {
        match self {
            Toml::Str(s) => Some(s.as_str()),
            _ => None,
        }
    }

    /// The text of the string of that name.
    pub fn get_str<'a>(&'a self, name: &str) -> (r: Option<&'a str>)
        ensures
            opt_view(r) == self@.get_str(name@),
    {
        match self.get(name) {
            Some(value) => value.as_str(),
            None => None,
        }
    }

    /// The table of that name within the table of another name.
    pub fn table_in<'a>(&'a self, group: &str, name: &str) -> (r: Option<&'a Toml>)
        ensures
            opt_view(r) == self@.table_in(group@, name@),
    {
        match self.get(group) {
            Some(tables) => match tables.get(name) {
                Some(table) => match table {
                    Toml::Table(_) => Some(table),
                    _ => None,
                },
                None => None,
            },
            None => None,
        }
    }
}

/// An entry is found under its name; of several of one name the last one counts, and a name that no
/// entry has finds nothing.
pub proof fn lemma_entries_are_found(
    entries: Seq<(Seq<char>, TomlView)>,
    name: Seq<char>,
    value: TomlView,
    asked: Seq<char>,
)
    ensures
        TomlView::Table(entries.push((name, value))).get(name) == Some(value),
        asked != name ==> TomlView::Table(entries.push((name, value))).get(asked)
            == TomlView::Table(entries).get(asked),
        TomlView::Table(Seq::empty()).get(asked) is None,
        !(value is Table) ==> value.get(asked) is None,
{
    assert(entries.push((name, value)).drop_last() =~= entries);
}

/// A text is found where the entry is a text, and a table within a table where both are there.
pub proof fn lemma_texts_and_tables_are_found(
    doc: TomlView,
    group: TomlView,
    table: TomlView,
    outer: Seq<char>,
    inner: Seq<char>,
    text: Seq<char>,
)
    ensures
        doc.get(inner) == Some(TomlView::Str(text)) ==> doc.get_str(inner) == Some(text),
        doc.get(inner) is None ==> doc.get_str(inner) is None,
        doc.get(inner) == Some(table) && !(table is Str) ==> doc.get_str(inner) is None,
        doc.get(outer) == Some(group) && group.get(inner) == Some(table) && table is Table
            ==> doc.table_in(outer, inner) == Some(table),
        doc.get(outer) == Some(group) && group.get(inner) == Some(table) && !(table is Table)
            ==> doc.table_in(outer, inner) is None,
        doc.get(outer) == Some(group) && group.get(inner) is None ==> doc.table_in(outer, inner)
            is None,
        doc.get(outer) is None ==> doc.table_in(outer, inner) is None,
{
}

} // verus!
