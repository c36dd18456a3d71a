//! The asset store and the cascade that picks an artifact for a status code and
//! a format.

use vstd::prelude::*;
use crate::classify::Format;
use crate::decimal::{decimal, push_decimal};

verus! {

/// The first value stored under `name`, if any.
pub open spec fn lookup(entries: Seq<(Seq<char>, Seq<char>)>, name: Seq<char>) -> Option<Seq<char>>
    decreases entries.len(),
{
    if entries.len() == 0 {
        None
    } else if entries[0].0 == name {
        Some(entries[0].1)
    } else {
        lookup(entries.drop_first(), name)
    }
}

/// The value of the first entry named `name`.
pub(crate) fn find_entry(entries: &Vec<(String, String)>, name: &String) -> (r: Option<String>)
    ensures
        r.deep_view() == lookup(entries.deep_view(), name@),
{
    let ghost all = entries.deep_view();
    let mut i: usize = 0;
    assert(all.subrange(0, all.len() as int) =~= all);
    while i < entries.len()
        invariant
            all == entries.deep_view(),
            i <= entries@.len(),
            lookup(all, name@) == lookup(all.subrange(i as int, all.len() as int), name@),
        decreases entries.len() - i,
    {
        let ghost rest = all.subrange(i as int, all.len() as int);
        assert(rest[0] == all[i as int]);
        assert(rest.drop_first() =~= all.subrange(i + 1, all.len() as int));
        if entries[i].0 == *name {
            return Some(entries[i].1.clone());
        }
        i = i + 1;
    }
    None
}

/// The readable artifacts of the asset root: file names with their contents.
#[derive(Clone, Debug)]
pub struct AssetStore {
    files: Vec<(String, String)>,
}

impl View for AssetStore {
    type V = Seq<(Seq<char>, Seq<char>)>;

    closed spec fn view(&self) -> Seq<(Seq<char>, Seq<char>)> {
        self.files.deep_view()
    }
}

impl AssetStore {
    /// A store with no artifact in it.
    pub fn new() -> (r: AssetStore)
        ensures
            r@ == Seq::<(Seq<char>, Seq<char>)>::empty(),
    {
        let r = AssetStore { files: Vec::new() };
        assert(r@ =~= Seq::<(Seq<char>, Seq<char>)>::empty());
        r
    }

    /// Records the artifact `name` with its contents. An earlier artifact of the
    /// same name stays in force.
    pub fn insert(&mut self, name: String, contents: String)
        ensures
            final(self)@ == old(self)@.push((name@, contents@)),
    {
        self.files.push((name, contents));
        assert(final(self)@ =~= old(self)@.push((name@, contents@)));
    }

    /// The contents of the artifact `name`, if the store holds one.
    pub fn get(&self, name: &String) -> (r: Option<String>)
        ensures
            r.deep_view() == lookup(self@, name@),
    {
        find_entry(&self.files, name)
    }
}

/// The artifact names tried for `code` in format `f`, in the order they are tried.
pub open spec fn candidate_names(code: u16, f: Format) -> Seq<Seq<char>> {
    let ext = f.extension_spec();
    seq![
        decimal(code as nat) + "."@ + ext,
        decimal((code / 10) as nat) + "x."@ + ext,
        decimal((code / 100) as nat) + "xx."@ + ext,
        "index."@ + ext,
        "index.html"@,
    ]
}

/// What the cascade picks: the format served and the artifact's contents, where
/// one was found. The first four names keep the wanted format; the last resort
/// `index.html` is served as HTML.
pub open spec fn resolve_spec(store: Seq<(Seq<char>, Seq<char>)>, code: u16, f: Format) -> (Format, Option<Seq<char>>) {
    let n = candidate_names(code, f);
    if lookup(store, n[0]) is Some {
        (f, lookup(store, n[0]))
    } else if lookup(store, n[1]) is Some {
        (f, lookup(store, n[1]))
    } else if lookup(store, n[2]) is Some {
        (f, lookup(store, n[2]))
    } else if lookup(store, n[3]) is Some {
        (f, lookup(store, n[3]))
    } else {
        (Format::Html, lookup(store, n[4]))
    }
}

fn numbered_name(n: u16, suffix: &str, ext: &str) -> (r: String)
    ensures
        r@ == decimal(n as nat) + suffix@ + ext@,
{
    let mut s = String::new();
    push_decimal(&mut s, n);
    s.append(suffix);
    s.append(ext);
    s
}

/// The artifact names tried for `code` in format `format`, most specific first.
pub fn candidates(code: u16, format: Format) -> (r: Vec<String>)
    ensures
        r.deep_view() == candidate_names(code, format),
{
    let ext = format.extension();
    let mut r: Vec<String> = Vec::new();
    r.push(numbered_name(code, ".", ext));
    r.push(numbered_name(code / 10, "x.", ext));
    r.push(numbered_name(code / 100, "xx.", ext));
    let mut index = String::from_str("index.");
    index.append(ext);
    r.push(index);
    r.push(String::from_str("index.html"));
    assert(r.deep_view() =~= candidate_names(code, format));
    r
}

/// The outcome of the cascade: the format to serve and the artifact, if any.
#[derive(Clone, Debug)]
pub struct AssetDescriptor {
    pub format: Format,
    pub body: Option<String>,
}

impl View for AssetDescriptor {
    type V = (Format, Option<Seq<char>>);

    open spec fn view(&self) -> (Format, Option<Seq<char>>) {
        (self.format, self.body.deep_view())
    }
}

/// Runs the cascade for `code` in format `format` against `store`.
pub fn resolve(store: &AssetStore, code: u16, format: Format) -> (r: AssetDescriptor)
    ensures
        r@ == resolve_spec(store@, code, format),
{
    let names = candidates(code, format);
    assert(candidate_names(code, format).len() == 5);
    assert(names@.len() == names.deep_view().len());
    assert(names@[0]@ == names.deep_view()[0]);
    assert(names@[1]@ == names.deep_view()[1]);
    assert(names@[2]@ == names.deep_view()[2]);
    assert(names@[3]@ == names.deep_view()[3]);
    assert(names@[4]@ == names.deep_view()[4]);
    let mut i: usize = 0;
    while i < 4
        invariant
            i <= 4,
            names.deep_view() == candidate_names(code, format),
            names@.len() == 5,
            forall|j: int| 0 <= j < i ==> lookup(store@, #[trigger] candidate_names(code, format)[j]) is None,
        decreases 4 - i,
    {
        assert(names@[i as int]@ == names.deep_view()[i as int]);
        let found = store.get(&names[i]);
        if found.is_some() {
            return AssetDescriptor { format, body: found };
        }
        i = i + 1;
    }
    let body = store.get(&names[4]);
    AssetDescriptor { format: Format::Html, body }
}

} // verus!
