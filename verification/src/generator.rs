//! Choosing what guest code to generate from a WIT package.
use vstd::prelude::*;
use crate::text::{chars_of, concat, find_char, first_index_of, lemma_first_index_of, str_equal, string_of};

verus! {

/// The language of the guest code to generate.
#[derive(Debug, Clone, Copy, PartialEq, Eq, Structural)]
pub enum GuestGeneratorType {
    /// Rust guest code.
    Rust,
    /// JavaScript guest code.
    Js,
    /// Go guest code.
    Golang,
}

/// Why no guest code can be generated.
#[derive(Debug, Clone, Copy, PartialEq, Eq, Structural)]
pub enum GeneratorError {
    /// There is no generator for the language.
    NotSupported,
}

impl GeneratorError {
    /// The error's text.
    pub fn message(&self) -> (r: &'static str)
        ensures
            r@ == "not support guest generator"@,
    {
        "not support guest generator"
    }
}

/// The generator for a language: only Rust has one.
pub fn guest_generator(t: GuestGeneratorType) -> (r: Result<GuestGeneratorType, GeneratorError>)
    ensures
        t == GuestGeneratorType::Rust ==> r == Ok::<GuestGeneratorType, GeneratorError>(t),
        t != GuestGeneratorType::Rust ==> r == Err::<GuestGeneratorType, GeneratorError>(
            GeneratorError::NotSupported,
        ),
{
    match t {
        GuestGeneratorType::Rust => Ok(t),
        _ => Err(GeneratorError::NotSupported),
    }
}

/// A world selector `doc.world` split at its first `.`: the document and, when
/// there is a `.`, the world (which may itself hold dots).
pub open spec fn spec_split_world(s: Seq<char>) -> (Seq<char>, Option<Seq<char>>) {
    let i = first_index_of(s, '.');
    if i < s.len() {
        (s.take(i), Some(s.skip(i + 1)))
    } else {
        (s, None)
    }
}

/// The document and the world that a world selector names.
pub fn split_world(world: &str) -> (r: (String, Option<String>))
    ensures
        r.0@ == spec_split_world(world@).0,
        match r.1 {
            Some(w) => spec_split_world(world@).1 == Some(w@),
            None => spec_split_world(world@).1 is None,
        },
{
    let cs = chars_of(world);
    let n = cs.len();
    let i = find_char(cs.as_slice(), 0, n, '.');
    proof {
        lemma_first_index_of(world@, '.');
        crate::text::lemma_first_index_of_is(world@, '.', i as int);
    }
    if i < n {
        let (head, tail) = cs.as_slice().split_at(i);
        let doc = string_of(head);
        let rest = string_of(tail.split_at(1).1);
        assert(head@ =~= world@.take(i as int));
        assert(tail@.skip(1) =~= world@.skip(i + 1));
        (doc, Some(rest))
    } else {
        assert(cs@ =~= world@);
        (string_of(cs.as_slice()), None)
    }
}

/// A document of a WIT package: its name, the names of its worlds, and the
/// position of its default world among them, if it has one.
#[derive(Debug)]
pub struct WitDocument {
    /// The document's name.
    pub name: String,
    /// The names of its worlds, in order.
    pub worlds: Vec<String>,
    /// The position of its default world in `worlds`.
    pub default_world: Option<usize>,
}

/// Why no world could be chosen.
#[derive(Debug, Clone, PartialEq, Eq)]
pub enum WorldError {
    /// The package has no document of this name.
    NoDocument(String),
    /// The document has no world of this name.
    NoWorld(String),
    /// The document has no default world.
    NoDefaultWorld,
    /// The package has no document.
    NoDocuments,
    /// The package has several documents and no world was named.
    MultipleDocuments,
}

impl WorldError {
    /// The error's text.
    pub fn message(&self) -> (r: String)
        ensures
            r@ == (match self {
                WorldError::NoDocument(d) => "no document named `"@ + d@ + "` in package"@,
                WorldError::NoWorld(w) => "no world named `"@ + w@ + "` in document"@,
                WorldError::NoDefaultWorld => "no default world in document"@,
                WorldError::NoDocuments => "no documents found in package"@,
                WorldError::MultipleDocuments =>
                    "multiple documents found in package, specify a default world"@,
            }),
    {
        match self {
            WorldError::NoDocument(d) => {
                let a = concat("no document named `", d.as_str());
                concat(a.as_str(), "` in package")
            },
            WorldError::NoWorld(w) => {
                let a = concat("no world named `", w.as_str());
                concat(a.as_str(), "` in document")
            },
            WorldError::NoDefaultWorld => String::from_str("no default world in document"),
            WorldError::NoDocuments => String::from_str("no documents found in package"),
            WorldError::MultipleDocuments => String::from_str(
                "multiple documents found in package, specify a default world",
            ),
        }
    }
}

/// The position of the first name equal to `n`, or the number of names when
/// none is.
pub open spec fn name_index(names: Seq<Seq<char>>, n: Seq<char>) -> int
    decreases names.len(),
{
    if names.len() == 0 {
        0
    } else if names[0] == n {
        0
    } else {
        1 + name_index(names.drop_first(), n)
    }
}

/// `i` is the first position of `n`, or the end when `n` does not occur.
proof fn lemma_name_index(names: Seq<Seq<char>>, n: Seq<char>, i: int)
    requires
        0 <= i <= names.len(),
        forall|k: int| 0 <= k < i ==> names[k] != n,
        i < names.len() ==> names[i] == n,
    ensures
        name_index(names, n) == i,
    decreases i,
{
    if i > 0 {
        let t = names.drop_first();
        assert forall|k: int| 0 <= k < i - 1 implies t[k] != n by {
            assert(t[k] == names[k + 1]);
        }
        lemma_name_index(t, n, i - 1);
    }
}

/// The names of a list of strings.
pub open spec fn names_view(names: Seq<String>) -> Seq<Seq<char>> {
    names.map_values(|x: String| x@)
}

/// The names of a package's documents.
pub open spec fn document_names(docs: Seq<WitDocument>) -> Seq<Seq<char>> {
    docs.map_values(|d: WitDocument| d.name@)
}

/// What choosing a world comes to: the positions of the document and of the
/// world in it, or why there is none.
pub enum WorldPick {
    /// The document's and the world's positions.
    Chosen(int, int),
    /// No document has the name.
    NoDocument(Seq<char>),
    /// No world of the document has the name.
    NoWorld(Seq<char>),
    /// The document has no default world.
    NoDefaultWorld,
    /// The package has no document.
    NoDocuments,
    /// The package has several documents.
    MultipleDocuments,
}

/// The default world of the document at `d`.
pub open spec fn default_pick(docs: Seq<WitDocument>, d: int) -> WorldPick {
    match docs[d].default_world {
        Some(w) => WorldPick::Chosen(d, w as int),
        None => WorldPick::NoDefaultWorld,
    }
}

/// The world that a selector `doc` or `doc.world` names in a package, or, with
/// no selector, the default world of its only document.
pub open spec fn spec_pick_world(docs: Seq<WitDocument>, selector: Option<Seq<char>>) -> WorldPick {
    match selector {
        Some(s) => {
            let (doc, world) = spec_split_world(s);
            let d = name_index(document_names(docs), doc);
            if d >= docs.len() {
                WorldPick::NoDocument(doc)
            } else {
                match world {
                    Some(w) => {
                        let k = name_index(names_view(docs[d].worlds@), w);
                        if k >= docs[d].worlds@.len() {
                            WorldPick::NoWorld(w)
                        } else {
                            WorldPick::Chosen(d, k)
                        }
                    },
                    None => default_pick(docs, d),
                }
            }
        },
        None => if docs.len() == 0 {
            WorldPick::NoDocuments
        } else if docs.len() > 1 {
            WorldPick::MultipleDocuments
        } else {
            default_pick(docs, 0)
        },
    }
}

/// The outcome of choosing a world, as a `WorldPick`.
pub open spec fn pick_of(r: Result<(usize, usize), WorldError>) -> WorldPick {
    match r {
        Ok((d, w)) => WorldPick::Chosen(d as int, w as int),
        Err(WorldError::NoDocument(n)) => WorldPick::NoDocument(n@),
        Err(WorldError::NoWorld(n)) => WorldPick::NoWorld(n@),
        Err(WorldError::NoDefaultWorld) => WorldPick::NoDefaultWorld,
        Err(WorldError::NoDocuments) => WorldPick::NoDocuments,
        Err(WorldError::MultipleDocuments) => WorldPick::MultipleDocuments,
    }
}

/// The position of the first document named `n`, or the number of documents.
fn find_document(docs: &[WitDocument], n: &str) -> (r: usize)
    ensures
        r == name_index(document_names(docs@), n@),
{
    let mut i: usize = 0;
    while i < docs.len()
        invariant
            i <= docs@.len(),
            forall|k: int| 0 <= k < i ==> document_names(docs@)[k] != n@,
        decreases docs@.len() - i,
    {
        if str_equal(docs[i].name.as_str(), n) {
            proof {
                lemma_name_index(document_names(docs@), n@, i as int);
            }
            return i;
        }
        i = i + 1;
    }
    proof {
        lemma_name_index(document_names(docs@), n@, i as int);
    }
    i
}

/// The position of the first name equal to `n`, or the number of names.
fn find_name(names: &[String], n: &str) -> (r: usize)
    ensures
        r == name_index(names_view(names@), n@),
{
    let mut i: usize = 0;
    while i < names.len()
        invariant
            i <= names@.len(),
            forall|k: int| 0 <= k < i ==> names_view(names@)[k] != n@,
        decreases names@.len() - i,
    {
        if str_equal(names[i].as_str(), n) {
            proof {
                lemma_name_index(names_view(names@), n@, i as int);
            }
            return i;
        }
        i = i + 1;
    }
    proof {
        lemma_name_index(names_view(names@), n@, i as int);
    }
    i
}

/// The default world of the document at `d`.
fn default_world_of(docs: &[WitDocument], d: usize) -> (r: Result<(usize, usize), WorldError>)
    requires
        d < docs@.len(),
    ensures
        pick_of(r) == default_pick(docs@, d as int),
{
    match docs[d].default_world {
        Some(w) => Ok((d, w)),
        None => Err(WorldError::NoDefaultWorld),
    }
}

/// The world to generate guest code for: the one a selector `doc` or
/// `doc.world` names (a bare `doc` names its default world), or, without a
/// selector, the default world of the package's only document. The result is
/// the document's position and the world's position in it.
pub fn pick_world(docs: &[WitDocument], selector: Option<&str>) -> (r: Result<(usize, usize), WorldError>)
    ensures
        pick_of(r) == spec_pick_world(docs@, match selector {
            Some(s) => Some(s@),
            None => None,
        }),
{
    match selector {
        Some(s) => {
            let (doc, world) = split_world(s);
            let d = find_document(docs, doc.as_str());
            if d >= docs.len() {
                return Err(WorldError::NoDocument(doc));
            }
            match world {
                Some(w) => {
                    let k = find_name(docs[d].worlds.as_slice(), w.as_str());
                    if k >= docs[d].worlds.len() {
                        Err(WorldError::NoWorld(w))
                    } else {
                        Ok((d, k))
                    }
                },
                None => default_world_of(docs, d),
            }
        },
        None => {
            if docs.len() == 0 {
                Err(WorldError::NoDocuments)
            } else if docs.len() > 1 {
                Err(WorldError::MultipleDocuments)
            } else {
                default_world_of(docs, 0)
            }
        },
    }
}

/// `name_index` is the position of the first name equal to `n`, or the number
/// of names when none is.
pub proof fn lemma_name_index_first(names: Seq<Seq<char>>, n: Seq<char>)
    ensures
        0 <= name_index(names, n) <= names.len(),
        forall|k: int| 0 <= k < name_index(names, n) ==> names[k] != n,
        name_index(names, n) < names.len() ==> names[name_index(names, n)] == n,
    decreases names.len(),
{
    if names.len() > 0 && names[0] != n {
        let t = names.drop_first();
        lemma_name_index_first(t, n);
        assert forall|k: int| 0 <= k < name_index(names, n) implies names[k] != n by {
            if k > 0 {
                assert(names[k] == t[k - 1]);
            }
        }
    }
}

/// A world selector splits at its first `.`: the document part holds no `.`;
/// without a `.` it is the whole selector and names no world; with one, the
/// selector is the document part, the `.` and the world part.
pub proof fn lemma_split_world_parts(s: Seq<char>)
    ensures
        forall|k: int| 0 <= k < spec_split_world(s).0.len() ==> spec_split_world(s).0[k] != '.',
        spec_split_world(s).1 is None ==> spec_split_world(s).0 == s,
        spec_split_world(s).1 matches Some(w) ==> s == spec_split_world(s).0 + seq!['.'] + w,
{
    lemma_first_index_of(s, '.');
    let i = first_index_of(s, '.');
    if i < s.len() {
        assert(s =~= s.take(i) + seq!['.'] + s.skip(i + 1));
    }
}

/// What choosing a world means. A chosen document is the first one with the
/// name the selector gives before its `.`; the chosen world is the first of
/// that document's worlds with the name after the `.`, or, when no world is
/// named, the document's default world. Without a selector the package has
/// exactly one document and its default world is chosen. Each error says
/// which of these could not be found.
pub proof fn lemma_pick_world_meaning(docs: Seq<WitDocument>, selector: Option<Seq<char>>)
    ensures
        spec_pick_world(docs, selector) matches WorldPick::Chosen(d, w) ==> {
            &&& 0 <= d < docs.len()
            &&& match selector {
                Some(s) => {
                    &&& docs[d].name@ == spec_split_world(s).0
                    &&& forall|k: int| 0 <= k < d ==> docs[k].name@ != spec_split_world(s).0
                    &&& match spec_split_world(s).1 {
                        Some(wn) => {
                            &&& 0 <= w < docs[d].worlds@.len()
                            &&& docs[d].worlds@[w]@ == wn
                            &&& forall|k: int| 0 <= k < w ==> docs[d].worlds@[k]@ != wn
                        },
                        None => docs[d].default_world matches Some(x) && x == w,
                    }
                },
                None => docs.len() == 1 && d == 0 && (docs[0].default_world matches Some(x) && x
                    == w),
            }
        },
        spec_pick_world(docs, selector) matches WorldPick::NoDocument(n) ==> {
            &&& selector matches Some(s) && n == spec_split_world(s).0
            &&& forall|k: int| 0 <= k < docs.len() ==> docs[k].name@ != n
        },
        spec_pick_world(docs, selector) matches WorldPick::NoWorld(n) ==> selector matches Some(s)
            && spec_split_world(s).1 == Some(n) && exists|d: int|
            0 <= d < docs.len() && docs[d].name@ == spec_split_world(s).0 && forall|k: int|
                0 <= k < docs[d].worlds@.len() ==> docs[d].worlds@[k]@ != n,
        spec_pick_world(docs, selector) is NoDefaultWorld ==> exists|d: int|
            0 <= d < docs.len() && docs[d].default_world is None && match selector {
                Some(s) => docs[d].name@ == spec_split_world(s).0 && spec_split_world(s).1 is None,
                None => docs.len() == 1,
            },
        spec_pick_world(docs, selector) is NoDocuments <==> selector is None && docs.len() == 0,
        spec_pick_world(docs, selector) is MultipleDocuments <==> selector is None && docs.len() > 1,
{
    match selector {
        Some(s) => {
            let (doc, world) = spec_split_world(s);
            lemma_name_index_first(document_names(docs), doc);
            let d = name_index(document_names(docs), doc);
            if d < docs.len() {
                assert(docs[d].name@ == document_names(docs)[d]);
                assert forall|k: int| 0 <= k < d implies docs[k].name@ != doc by {
                    assert(docs[k].name@ == document_names(docs)[k]);
                }
                match world {
                    Some(wn) => {
                        let names = names_view(docs[d].worlds@);
                        lemma_name_index_first(names, wn);
                        let k = name_index(names, wn);
                        assert forall|j: int| 0 <= j < k implies docs[d].worlds@[j]@ != wn by {
                            assert(names[j] == docs[d].worlds@[j]@);
                        }
                        if k < names.len() {
                            assert(names[k] == docs[d].worlds@[k]@);
                        }
                    },
                    None => {},
                }
            } else {
                assert forall|k: int| 0 <= k < docs.len() implies docs[k].name@ != doc by {
                    assert(docs[k].name@ == document_names(docs)[k]);
                }
            }
        },
        None => {},
    }
}

} // verus!
