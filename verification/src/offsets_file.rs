use vstd::prelude::*;
use crate::offsets::{entries_map, Offsets};

verus! {

/// A top-level item of a TOML document, as far as an offsets file needs
/// it: a table, with each of its values as an integer if it is one.
#[derive(Debug, Clone)]
pub enum TomlSection {
    Table(Vec<(String, Option<i64>)>),
    Other,
}

/// A `TomlSection` with its names as sequences of characters.
pub enum TomlSectionView {
    Table(Seq<(Seq<char>, Option<i64>)>),
    Other,
}

pub open spec fn table_view(t: Seq<(String, Option<i64>)>) -> Seq<(Seq<char>, Option<i64>)> {
    t.map_values(|e: (String, Option<i64>)| (e.0@, e.1))
}

impl View for TomlSection {
    type V = TomlSectionView;

    open spec fn view(&self) -> TomlSectionView {
        match self {
            TomlSection::Table(t) => TomlSectionView::Table(table_view(t@)),
            TomlSection::Other => TomlSectionView::Other,
        }
    }
}

pub open spec fn document_view(d: Seq<(String, TomlSection)>) -> Seq<(Seq<char>, TomlSectionView)> {
    d.map_values(|e: (String, TomlSection)| (e.0@, e.1@))
}

/// The abstract form of a parse result: the error message, or the top-level
/// items in the order the parser lists them (`None` if the top level is not
/// a table).
pub open spec fn parse_result_view(r: Result<Option<Vec<(String, TomlSection)>>, String>) -> Result<Option<Seq<(Seq<char>, TomlSectionView)>>, Seq<char>> {
    match r {
        Err(m) => Err(m@),
        Ok(None) => Ok(None),
        Ok(Some(d)) => Ok(Some(document_view(d@))),
    }
}

/// What the `toml` crate makes of a document: its error message, or its
/// top-level items (each table with its values as integers where they are).
pub uninterp spec fn toml_document(text: Seq<char>) -> Result<Option<Seq<(Seq<char>, TomlSectionView)>>, Seq<char>>;

/// Parses `text` with `toml`'s `FromStr` for `toml::Value` (which is
/// `toml::from_str`) and hands out the top-level items, each table's values
/// through `Value::as_integer`. The contract only names the result: that the
/// same text gives the same result; nothing is claimed of what it is.
#[verifier::external_body]
fn parse_toml_document(text: &str) -> (r: Result<Option<Vec<(String, TomlSection)>>, String>)
    ensures
        parse_result_view(r) == toml_document(text@),
{
    match text.parse::<toml::Value>() {
        Err(e) => Err(e.to_string()),
        Ok(toml::Value::Table(top)) => Ok(Some(top.iter().map(|(k, v)| (k.clone(), match v {
            toml::Value::Table(t) => TomlSection::Table(
                t.iter().map(|(n, x)| (n.clone(), x.as_integer())).collect(),
            ),
            _ => TomlSection::Other,
        })).collect())),
        Ok(_) => Ok(None),
    }
}

/// Why an offsets file was refused.
#[derive(Debug, Clone, PartialEq, Eq)]
pub enum OffsetsFileError {
    /// The text is not TOML; the parser's message.
    InvalidToml(String),
    /// "table not found: {name}"
    MissingTable(String),
    /// "not a table: {name}"
    NotATable(String),
    /// "not an integer: {table}.{name}"
    NotAnInteger { table: String, name: String },
}

pub enum OffsetsFileErrorView {
    InvalidToml(Seq<char>),
    MissingTable(Seq<char>),
    NotATable(Seq<char>),
    NotAnInteger { table: Seq<char>, name: Seq<char> },
}

impl View for OffsetsFileError {
    type V = OffsetsFileErrorView;

    open spec fn view(&self) -> OffsetsFileErrorView {
        match self {
            OffsetsFileError::InvalidToml(m) => OffsetsFileErrorView::InvalidToml(m@),
            OffsetsFileError::MissingTable(n) => OffsetsFileErrorView::MissingTable(n@),
            OffsetsFileError::NotATable(n) => OffsetsFileErrorView::NotATable(n@),
            OffsetsFileError::NotAnInteger { table, name } => OffsetsFileErrorView::NotAnInteger {
                table: table@,
                name: name@,
            },
        }
    }
}

pub open spec fn offsets_file_error_text(e: OffsetsFileErrorView) -> Seq<char> {
    match e {
        OffsetsFileErrorView::InvalidToml(m) => m,
        OffsetsFileErrorView::MissingTable(n) => "table not found: "@ + n,
        OffsetsFileErrorView::NotATable(n) => "not a table: "@ + n,
        OffsetsFileErrorView::NotAnInteger { table, name } => "not an integer: "@ + table + "."@
            + name,
    }
}

impl OffsetsFileError {
    /// The message of this error, as the program reports it.
    pub fn message(&self) -> (r: String)
        ensures
            r@ == offsets_file_error_text(self@),
    {
        match self {
            OffsetsFileError::InvalidToml(m) => m.clone(),
            OffsetsFileError::MissingTable(n) => {
                let mut m = String::from_str("table not found: ");
                m.append(n.as_str());
                m
            },
            OffsetsFileError::NotATable(n) => {
                let mut m = String::from_str("not a table: ");
                m.append(n.as_str());
                m
            },
            OffsetsFileError::NotAnInteger { table, name } => {
                let mut m = String::from_str("not an integer: ");
                m.append(table.as_str());
                m.append(".");
                m.append(name.as_str());
                m
            },
        }
    }
}

/// The first position of the item named `name`, if there is one.
pub open spec fn first_key_at(d: Seq<(Seq<char>, TomlSectionView)>, name: Seq<char>, k: int) -> bool {
    &&& 0 <= k < d.len()
    &&& d[k].0 == name
    &&& forall|j: int| 0 <= j < k ==> d[j].0 != name
}

/// The table named `name` of a document.
pub open spec fn section_table(d: Seq<(Seq<char>, TomlSectionView)>, name: Seq<char>) -> Result<Seq<(Seq<char>, Option<i64>)>, OffsetsFileErrorView> {
    if exists|k: int| first_key_at(d, name, k) {
        let k = choose|k: int| first_key_at(d, name, k);
        match d[k].1 {
            TomlSectionView::Table(t) => Ok(t),
            TomlSectionView::Other => Err(OffsetsFileErrorView::NotATable(name)),
        }
    } else {
        Err(OffsetsFileErrorView::MissingTable(name))
    }
}

/// The first position of a value that is not an integer.
pub open spec fn first_non_integer_at(t: Seq<(Seq<char>, Option<i64>)>, k: int) -> bool {
    &&& 0 <= k < t.len()
    &&& t[k].1 is None
    &&& forall|j: int| 0 <= j < k ==> t[j].1 is Some
}

/// The name of the first value of a table that is not an integer.
pub open spec fn first_non_integer(t: Seq<(Seq<char>, Option<i64>)>) -> Option<Seq<char>> {
    if exists|k: int| first_non_integer_at(t, k) {
        Some(t[choose|k: int| first_non_integer_at(t, k)].0)
    } else {
        None
    }
}

/// The map a table of integers gives, a later entry for a name replacing an
/// earlier one.
pub open spec fn table_map(t: Seq<(Seq<char>, Option<i64>)>) -> Map<Seq<char>, i64>
    decreases t.len(),
{
    if t.len() == 0 {
        Map::empty()
    } else {
        table_map(t.drop_last()).insert(t.last().0, t.last().1->0)
    }
}

/// In a table, a later entry for a name replaces every earlier one, and the
/// other names keep their values.
pub proof fn lemma_table_last_entry_wins(t: Seq<(Seq<char>, Option<i64>)>, name: Seq<char>, value: i64, other: Seq<char>)
    requires
        other != name,
    ensures
        table_map(t.push((name, Some(value)))).contains_key(name),
        table_map(t.push((name, Some(value))))[name] == value,
        table_map(t.push((name, Some(value)))).contains_key(other) == table_map(t).contains_key(
            other,
        ),
        table_map(t).contains_key(other) ==> table_map(t.push((name, Some(value))))[other]
            == table_map(t)[other],
{
    assert(t.push((name, Some(value))).drop_last() =~= t);
}

/// What an offsets file gives: the `netvars` table and then the
/// `signatures` table must be tables; every value of the signatures and then
/// of the netvars must be an integer; the offsets are those two tables.
pub open spec fn offsets_from_document_spec(doc: Result<Option<Seq<(Seq<char>, TomlSectionView)>>, Seq<char>>) -> Result<(Map<Seq<char>, i64>, Map<Seq<char>, i64>), OffsetsFileErrorView> {
    match doc {
        Err(m) => Err(OffsetsFileErrorView::InvalidToml(m)),
        Ok(None) => Err(OffsetsFileErrorView::MissingTable("netvars"@)),
        Ok(Some(d)) => match section_table(d, "netvars"@) {
            Err(e) => Err(e),
            Ok(nv) => match section_table(d, "signatures"@) {
                Err(e) => Err(e),
                Ok(sg) => match first_non_integer(sg) {
                    Some(n) => Err(
                        OffsetsFileErrorView::NotAnInteger { table: "signatures"@, name: n },
                    ),
                    None => match first_non_integer(nv) {
                        Some(n) => Err(
                            OffsetsFileErrorView::NotAnInteger { table: "netvars"@, name: n },
                        ),
                        None => Ok((table_map(sg), table_map(nv))),
                    },
                },
            },
        },
    }
}

/// An offsets file is read from its `netvars` and `signatures` tables alone:
/// where the first item named `netvars` is a table `nv` and the first item
/// named `signatures` is a table `sg`, all of whose values are integers, the
/// offsets are exactly the maps of `sg` and `nv`, whatever else the
/// document holds.
pub proof fn lemma_offsets_from_the_two_tables(
    d: Seq<(Seq<char>, TomlSectionView)>,
    kn: int,
    nv: Seq<(Seq<char>, Option<i64>)>,
    ks: int,
    sg: Seq<(Seq<char>, Option<i64>)>,
)
    requires
        0 <= kn < d.len(),
        d[kn].0 == "netvars"@,
        d[kn].1 == TomlSectionView::Table(nv),
        forall|j: int| 0 <= j < kn ==> d[j].0 != "netvars"@,
        0 <= ks < d.len(),
        d[ks].0 == "signatures"@,
        d[ks].1 == TomlSectionView::Table(sg),
        forall|j: int| 0 <= j < ks ==> d[j].0 != "signatures"@,
        forall|i: int| 0 <= i < nv.len() ==> (#[trigger] nv[i]).1 is Some,
        forall|i: int| 0 <= i < sg.len() ==> (#[trigger] sg[i]).1 is Some,
    ensures
        offsets_from_document_spec(Ok(Some(d))) == Ok::<
            (Map<Seq<char>, i64>, Map<Seq<char>, i64>),
            OffsetsFileErrorView,
        >((table_map(sg), table_map(nv))),
{
    assert(first_key_at(d, "netvars"@, kn));
    assert(first_key_at(d, "signatures"@, ks));
    lemma_first_key(d, "netvars"@, kn);
    lemma_first_key(d, "signatures"@, ks);
    assert(section_table(d, "netvars"@) == Ok::<Seq<(Seq<char>, Option<i64>)>, OffsetsFileErrorView>(nv));
    assert(section_table(d, "signatures"@) == Ok::<Seq<(Seq<char>, Option<i64>)>, OffsetsFileErrorView>(sg));
    assert(!exists|k: int| first_non_integer_at(nv, k));
    assert(!exists|k: int| first_non_integer_at(sg, k));
    assert(first_non_integer(nv) is None);
    assert(first_non_integer(sg) is None);
}

/// The item found under a name is its first occurrence.
proof fn lemma_first_key(d: Seq<(Seq<char>, TomlSectionView)>, name: Seq<char>, k: int)
    requires
        first_key_at(d, name, k),
    ensures
        (choose|j: int| first_key_at(d, name, j)) == k,
{
    let c = choose|j: int| first_key_at(d, name, j);
    assert(first_key_at(d, name, c));
    if c < k {
        assert(d[c].0 != name);
    } else if c > k {
        assert(d[k].0 != name);
    }
}

/// Items under other names do not change what an offsets file gives: adding
/// one to a document gives the same offsets, or the same error.
pub proof fn lemma_offsets_ignore_other_items(d: Seq<(Seq<char>, TomlSectionView)>, item: (Seq<char>, TomlSectionView))
    requires
        item.0 != "netvars"@,
        item.0 != "signatures"@,
    ensures
        offsets_from_document_spec(Ok(Some(d.push(item)))) == offsets_from_document_spec(
            Ok(Some(d)),
        ),
{
    lemma_section_ignores_item(d, item, "netvars"@);
    lemma_section_ignores_item(d, item, "signatures"@);
}

proof fn lemma_section_ignores_item(d: Seq<(Seq<char>, TomlSectionView)>, item: (Seq<char>, TomlSectionView), name: Seq<char>)
    requires
        item.0 != name,
    ensures
        section_table(d.push(item), name) == section_table(d, name),
{
    let e = d.push(item);
    assert forall|k: int| first_key_at(e, name, k) <==> first_key_at(d, name, k) by {
        if 0 <= k < d.len() {
            assert(e[k] == d[k]);
            assert forall|j: int| 0 <= j < k implies e[j] == d[j] by {}
        }
    }
    if exists|k: int| first_key_at(d, name, k) {
        let k = choose|k: int| first_key_at(d, name, k);
        lemma_first_key(d, name, k);
        lemma_first_key(e, name, k);
        assert(e[k] == d[k]);
    }
}

/// The result matches its abstract form.
pub open spec fn offsets_result_matches(r: Result<Offsets, OffsetsFileError>, s: Result<(Map<Seq<char>, i64>, Map<Seq<char>, i64>), OffsetsFileErrorView>) -> bool {
    match (r, s) {
        (Ok(o), Ok((sigs, vars))) => o.sigs_view() == sigs && o.vars_view() == vars,
        (Err(e), Err(ev)) => e@ == ev,
        _ => false,
    }
}

/// The table named `name`.
fn find_table<'a>(doc: &'a Vec<(String, TomlSection)>, name: &str) -> (r: Result<&'a Vec<(String, Option<i64>)>, OffsetsFileError>)
    ensures
        match r {
            Ok(t) => section_table(document_view(doc@), name@) == Ok::<
                Seq<(Seq<char>, Option<i64>)>,
                OffsetsFileErrorView,
            >(table_view(t@)),
            Err(e) => section_table(document_view(doc@), name@) == Err::<
                Seq<(Seq<char>, Option<i64>)>,
                OffsetsFileErrorView,
            >(e@),
        },
{
    let ghost d = document_view(doc@);
    let key = name.to_owned();
    let mut i: usize = 0;
    while i < doc.len()
        invariant
            i <= doc.len(),
            key@ == name@,
            d == document_view(doc@),
            forall|j: int| 0 <= j < i ==> d[j].0 != name@,
        decreases doc.len() - i,
    {
        if doc[i].0 == key {
            assert(first_key_at(d, name@, i as int));
            proof {
                let k = choose|k: int| first_key_at(d, name@, k);
                assert(k == i);
            }
            return match &doc[i].1 {
                TomlSection::Table(t) => Ok(t),
                TomlSection::Other => Err(OffsetsFileError::NotATable(key)),
            };
        }
        i = i + 1;
    }
    Err(OffsetsFileError::MissingTable(key))
}

/// The entries of a table, if all its values are integers.
fn integer_entries(t: &Vec<(String, Option<i64>)>, table: &str) -> (r: Result<Vec<(String, i64)>, OffsetsFileError>)
    ensures
        match r {
            Ok(v) => first_non_integer(table_view(t@)) is None && entries_map(v@) == table_map(
                table_view(t@),
            ),
            Err(e) => first_non_integer(table_view(t@)) matches Some(n) && e@
                == OffsetsFileErrorView::NotAnInteger { table: table@, name: n },
        },
{
    let ghost tv = table_view(t@);
    let mut out: Vec<(String, i64)> = Vec::new();
    let mut i: usize = 0;
    while i < t.len()
        invariant
            i <= t.len(),
            tv == table_view(t@),
            out@.len() == i,
            forall|j: int| 0 <= j < i ==> tv[j].1 is Some,
            forall|j: int| 0 <= j < i ==> (#[trigger] out@[j]).0@ == tv[j].0 && Some(out@[j].1)
                == tv[j].1,
        decreases t.len() - i,
    {
        match t[i].1 {
            None => {
                assert(first_non_integer_at(tv, i as int));
                proof {
                    let k = choose|k: int| first_non_integer_at(tv, k);
                    assert(k == i);
                }
                return Err(
                    OffsetsFileError::NotAnInteger {
                        table: table.to_owned(),
                        name: t[i].0.clone(),
                    },
                );
            },
            Some(v) => {
                out.push((t[i].0.clone(), v));
            },
        }
        i = i + 1;
    }
    proof {
        lemma_entries_match_table(out@, tv);
    }
    Ok(out)
}

/// Entries that match a table of integers give the same map.
proof fn lemma_entries_match_table(v: Seq<(String, i64)>, t: Seq<(Seq<char>, Option<i64>)>)
    requires
        v.len() == t.len(),
        forall|j: int| 0 <= j < v.len() ==> (#[trigger] v[j]).0@ == t[j].0 && Some(v[j].1) == t[j].1,
    ensures
        entries_map(v) == table_map(t),
    decreases v.len(),
{
    if v.len() > 0 {
        let vd = v.drop_last();
        let td = t.drop_last();
        assert forall|j: int| 0 <= j < vd.len() implies (#[trigger] vd[j]).0@ == td[j].0 && Some(
            vd[j].1,
        ) == td[j].1 by {
            assert(vd[j] == v[j]);
        }
        lemma_entries_match_table(vd, td);
        assert(v[v.len() - 1].0@ == t[t.len() - 1].0);
    }
}

/// Builds the offsets from what the parser made of an offsets file.
pub fn offsets_from_document(doc: Result<Option<Vec<(String, TomlSection)>>, String>) -> (r: Result<Offsets, OffsetsFileError>)
    ensures
        offsets_result_matches(r, offsets_from_document_spec(parse_result_view(doc))),
{
    let d = match doc {
        Err(m) => {
            return Err(OffsetsFileError::InvalidToml(m));
        },
        Ok(None) => {
            return Err(OffsetsFileError::MissingTable(String::from_str("netvars")));
        },
        Ok(Some(d)) => d,
    };
    let netvars = find_table(&d, "netvars")?;
    let signatures = find_table(&d, "signatures")?;
    let sigs = integer_entries(signatures, "signatures")?;
    let vars = integer_entries(netvars, "netvars")?;
    Ok(Offsets::new(sigs, vars))
}

/// Reads the offsets from the text of an offsets file (the `signatures` and
/// `netvars` tables of a TOML document).
pub fn get_offsets(file_content: &str) -> (r: Result<Offsets, OffsetsFileError>)
    ensures
        offsets_result_matches(r, offsets_from_document_spec(toml_document(file_content@))),
{
    offsets_from_document(parse_toml_document(file_content))
}

} // verus!
