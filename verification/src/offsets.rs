use vstd::prelude::*;

verus! {

/// A name that could not be found in an offset table.
#[derive(Debug, Clone, PartialEq, Eq)]
pub enum OffsetError {
    /// "Signature not found: {name}"
    SignatureNotFound(String),
    /// "netvar not found: {name}"
    NetvarNotFound(String),
}

/// An `OffsetError` with its name as a sequence of characters.
pub enum OffsetErrorView {
    SignatureNotFound(Seq<char>),
    NetvarNotFound(Seq<char>),
}

impl View for OffsetError {
    type V = OffsetErrorView;

    open spec fn view(&self) -> OffsetErrorView {
        match self {
            OffsetError::SignatureNotFound(n) => OffsetErrorView::SignatureNotFound(n@),
            OffsetError::NetvarNotFound(n) => OffsetErrorView::NetvarNotFound(n@),
        }
    }
}

/// The message of a failed lookup.
pub open spec fn offset_error_text(e: OffsetErrorView) -> Seq<char> {
    match e {
        OffsetErrorView::SignatureNotFound(n) => "Signature not found: "@ + n,
        OffsetErrorView::NetvarNotFound(n) => "netvar not found: "@ + n,
    }
}

impl OffsetError {
    /// The message of this error, as the program reports it.
    pub fn message(&self) -> (r: String)
        ensures
            r@ == offset_error_text(self@),
    {
        match self {
            OffsetError::SignatureNotFound(n) => {
                let mut m = String::from_str("Signature not found: ");
                m.append(n.as_str());
                m
            },
            OffsetError::NetvarNotFound(n) => {
                let mut m = String::from_str("netvar not found: ");
                m.append(n.as_str());
                m
            },
        }
    }
}

/// The abstract form of a lookup result.
pub open spec fn offset_result_view(r: Result<i64, OffsetError>) -> Result<i64, OffsetErrorView> {
    match r {
        Ok(v) => Ok(v),
        Err(e) => Err(e@),
    }
}

/// The map that a list of `(name, value)` entries describes when they are
/// inserted one after the other: a later entry for a name replaces an
/// earlier one.
pub open spec fn entries_map(entries: Seq<(String, i64)>) -> Map<Seq<char>, i64>
    decreases entries.len(),
{
    if entries.len() == 0 {
        Map::empty()
    } else {
        entries_map(entries.drop_last()).insert(entries.last().0@, entries.last().1)
    }
}

/// Signature and netvar offsets, looked up by name.
#[derive(Clone, Debug)]
pub struct Offsets {
    sigs: Vec<(String, i64)>,
    vars: Vec<(String, i64)>,
}

impl Offsets {
    /// The signature table.
    pub closed spec fn sigs_view(&self) -> Map<Seq<char>, i64> {
        entries_map(self.sigs@)
    }

    /// The netvar table.
    pub closed spec fn vars_view(&self) -> Map<Seq<char>, i64> {
        entries_map(self.vars@)
    }

    /// What looking up the signature `name` gives.
    pub open spec fn sig_result(&self, name: Seq<char>) -> Result<i64, OffsetErrorView> {
        if self.sigs_view().contains_key(name) {
            Ok(self.sigs_view()[name])
        } else {
            Err(OffsetErrorView::SignatureNotFound(name))
        }
    }

    /// What looking up the netvar `name` gives.
    pub open spec fn var_result(&self, name: Seq<char>) -> Result<i64, OffsetErrorView> {
        if self.vars_view().contains_key(name) {
            Ok(self.vars_view()[name])
        } else {
            Err(OffsetErrorView::NetvarNotFound(name))
        }
    }

    /// Builds the tables from the entries of the `signatures` and `netvars`
    /// sections; a later entry for a name replaces an earlier one.
    pub fn new(signatures: Vec<(String, i64)>, netvars: Vec<(String, i64)>) -> (r: Offsets)
        ensures
            r.sigs_view() == entries_map(signatures@),
            r.vars_view() == entries_map(netvars@),
    {
        Offsets { sigs: signatures, vars: netvars }
    }

    /// Offset of the signature `sig_name`.
    pub fn get_sig(&self, sig_name: &str) -> (r: Result<i64, OffsetError>)
        ensures
            offset_result_view(r) == self.sig_result(sig_name@),
    {
        match lookup(&self.sigs, sig_name) {
            Some(v) => Ok(v),
            None => Err(OffsetError::SignatureNotFound(sig_name.to_owned())),
        }
    }

    /// Offset of the netvar `var_name`.
    pub fn get_var(&self, var_name: &str) -> (r: Result<i64, OffsetError>)
        ensures
            offset_result_view(r) == self.var_result(var_name@),
    {
        match lookup(&self.vars, var_name) {
            Some(v) => Ok(v),
            None => Err(OffsetError::NetvarNotFound(var_name.to_owned())),
        }
    }
}

impl Default for Offsets {
    fn default() -> (r: Offsets)
        ensures
            r.sigs_view() == Map::<Seq<char>, i64>::empty(),
            r.vars_view() == Map::<Seq<char>, i64>::empty(),
    {
        Offsets { sigs: Vec::new(), vars: Vec::new() }
    }
}

/// A later entry for a name replaces every earlier one, and the other names
/// keep what they had.
pub proof fn lemma_last_entry_wins(entries: Seq<(String, i64)>, name: String, value: i64, other: Seq<char>)
    requires
        other != name@,
    ensures
        entries_map(entries.push((name, value))).contains_key(name@),
        entries_map(entries.push((name, value)))[name@] == value,
        entries_map(entries.push((name, value))).contains_key(other) == entries_map(
            entries,
        ).contains_key(other),
        entries_map(entries).contains_key(other) ==> entries_map(entries.push((name, value)))[other]
            == entries_map(entries)[other],
{
    assert(entries.push((name, value)).drop_last() =~= entries);
}

/// If no entry after position `i` has the key `k`, the map of the whole list
/// agrees on `k` with the map of its first `i + 1` entries.
proof fn lemma_entries_map_suffix_free(entries: Seq<(String, i64)>, i: int, k: Seq<char>)
    requires
        0 <= i < entries.len(),
        forall|j: int| i < j < entries.len() ==> entries[j].0@ != k,
    ensures
        entries_map(entries).contains_key(k) == entries_map(entries.take(i + 1)).contains_key(k),
        entries_map(entries).contains_key(k) ==> entries_map(entries)[k] == entries_map(
            entries.take(i + 1),
        )[k],
    decreases entries.len(),
{
    if entries.len() == i + 1 {
        assert(entries.take(i + 1) =~= entries);
    } else {
        let d = entries.drop_last();
        assert(d.take(i + 1) =~= entries.take(i + 1));
        lemma_entries_map_suffix_free(d, i, k);
    }
}

/// No entry of the list has the key `k`.
proof fn lemma_entries_map_absent(entries: Seq<(String, i64)>, k: Seq<char>)
    requires
        forall|j: int| 0 <= j < entries.len() ==> entries[j].0@ != k,
    ensures
        !entries_map(entries).contains_key(k),
    decreases entries.len(),
{
    if entries.len() > 0 {
        lemma_entries_map_absent(entries.drop_last(), k);
    }
}

/// The value of the last entry named `name`, if any.
fn lookup(entries: &Vec<(String, i64)>, name: &str) -> (r: Option<i64>)
    ensures
        entries_map(entries@).contains_key(name@) ==> r == Some(entries_map(entries@)[name@]),
        !entries_map(entries@).contains_key(name@) ==> r is None,
{
    let key = name.to_owned();
    let mut i = entries.len();
    while i > 0
        invariant
            i <= entries.len(),
            key@ == name@,
            forall|j: int| i <= j < entries.len() ==> entries@[j].0@ != name@,
        decreases i,
    {
        i = i - 1;
        if entries[i].0 == key {
            proof {
                lemma_entries_map_suffix_free(entries@, i as int, name@);
                let t = entries@.take(i + 1);
                assert(t.drop_last() =~= entries@.take(i as int));
                assert(t.last() == entries@[i as int]);
            }
            return Some(entries[i].1);
        }
    }
    proof {
        lemma_entries_map_absent(entries@, name@);
    }
    None
}

} // verus!
