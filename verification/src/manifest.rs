//! Manifest parsing: from manifest text to a list of (path, hash) entries.
//!
//! A manifest is a JSON document whose top level is an object with an
//! `objects` field; that field maps logical paths to entry objects, each
//! expected to carry a `hash` string. Failures of this top-level shape abort
//! a run; a malformed single entry merely loses its hash and is skipped
//! later, at materialization time.

use vstd::prelude::*;

use crate::json_tree::JsonModel;
use crate::json_tree::JsonTree;
use crate::json_tree::fields_model;
use crate::json_tree::json_doc_of;
use crate::json_tree::lemma_fields_model;
use crate::json_tree::obj_lookup;
use crate::json_tree::parse_json;
use crate::json_tree::tree_of;

verus! {

/// A failure of the manifest as a whole; each aborts the run.
#[derive(Clone, Copy, Debug, PartialEq, Eq, Structural)]
pub enum ManifestError {
    /// The text is not valid JSON.
    MalformedManifest,
    /// The top-level value is not an object.
    InvalidManifestShape,
    /// The top-level object has no `objects` field.
    MissingObjectsField,
    /// The `objects` field is not itself an object.
    ObjectsFieldNotMapping,
}

/// Model of one manifest entry: a logical path, and its hash if the entry
/// carries one (`None` when the entry is not an object, or has no `hash`
/// field, or its `hash` is not a string).
pub struct EntryModel {
    pub path: Seq<char>,
    pub hash: Option<Seq<char>>,
}

/// One manifest entry.
#[derive(Debug)]
pub struct ManifestEntry {
    pub path: String,
    pub hash: Option<String>,
}

impl View for ManifestEntry {
    type V = EntryModel;

    open spec fn view(&self) -> EntryModel {
        EntryModel {
            path: self.path@,
            hash: match self.hash {
                Option::Some(h) => Option::Some(h@),
                Option::None => Option::None,
            },
        }
    }
}

/// A parsed manifest: its entries, in document order.
#[derive(Debug)]
pub struct Manifest {
    pub entries: Vec<ManifestEntry>,
}

impl View for Manifest {
    type V = Seq<EntryModel>;

    open spec fn view(&self) -> Seq<EntryModel> {
        self.entries@.map_values(|e: ManifestEntry| e@)
    }
}

/// The hash an entry value yields: the `hash` field of an object, when that
/// field holds a string.
pub open spec fn entry_hash_of(v: JsonModel) -> Option<Seq<char>> {
    match v {
        JsonModel::Obj(fields) => match obj_lookup(fields, "hash"@) {
            Option::Some(h) => match h {
                JsonModel::Str(s) => Option::Some(s),
                _ => Option::None,
            },
            Option::None => Option::None,
        },
        _ => Option::None,
    }
}

/// The entries named by an `objects` mapping, in order.
pub open spec fn entries_of(fields: Seq<(Seq<char>, JsonModel)>) -> Seq<EntryModel> {
    fields.map_values(|p: (Seq<char>, JsonModel)| EntryModel { path: p.0, hash: entry_hash_of(p.1) })
}

/// What a whole document yields: the entry list, or the one manifest-level
/// error that describes its shape.
pub open spec fn manifest_of_doc(d: Option<JsonModel>) -> Result<Seq<EntryModel>, ManifestError> {
    match d {
        Option::None => Result::Err(ManifestError::MalformedManifest),
        Option::Some(m) => match m {
            JsonModel::Obj(top) => match obj_lookup(top, "objects"@) {
                Option::Some(o) => match o {
                    JsonModel::Obj(entries) => Result::Ok(entries_of(entries)),
                    _ => Result::Err(ManifestError::ObjectsFieldNotMapping),
                },
                Option::None => Result::Err(ManifestError::MissingObjectsField),
            },
            _ => Result::Err(ManifestError::InvalidManifestShape),
        },
    }
}

/// Per-entry shape problems are not manifest-level failures: any document
/// whose top level is an object with an `objects` object field parses to
/// `Ok`, with one entry per field of that mapping, whatever the entry values
/// hold. A broken entry merely carries no hash and is skipped later.
pub proof fn lemma_entry_shape_is_not_fatal(top: Seq<(Seq<char>, JsonModel)>, es: Seq<(Seq<char>, JsonModel)>)
    requires
        obj_lookup(top, "objects"@) == Option::Some(JsonModel::Obj(es)),
    ensures
        manifest_of_doc(Option::Some(JsonModel::Obj(top))) == Result::<
            Seq<EntryModel>,
            ManifestError,
        >::Ok(entries_of(es)),
        entries_of(es).len() == es.len(),
        forall|i: int| 0 <= i < es.len() ==> (#[trigger] entries_of(es)[i]).path == es[i].0,
{
}

/// The model of a parse result.
pub open spec fn manifest_result_model(r: Result<Manifest, ManifestError>) -> Result<
    Seq<EntryModel>,
    ManifestError,
> {
    match r {
        Result::Ok(m) => Result::Ok(m@),
        Result::Err(e) => Result::Err(e),
    }
}

/// Finds the first binding of `key` in an object's field list.
fn tree_lookup<'a>(fields: &'a Vec<(String, JsonTree)>, key: &String) -> (r: Option<&'a JsonTree>)
    ensures
        match obj_lookup(fields_model(fields@), key@) {
            Option::Some(m) => r matches Option::Some(t) && t@ == m,
            Option::None => r is None,
        },
{
    proof {
        lemma_fields_model(fields@);
    }
    let ghost fm = fields_model(fields@);
    proof {
        assert(fm.skip(0) =~= fm);
    }
    let n = fields.len();
    let mut i: usize = 0;
    while i < n
        invariant
            n == fields.len(),
            0 <= i <= n,
            fm == fields_model(fields@),
            fm.len() == n,
            forall|j: int| 0 <= j < fm.len()
                ==> #[trigger] fm[j] == (fields@[j].0@, crate::json_tree::tree_model(fields@[j].1)),
            obj_lookup(fm, key@) == obj_lookup(fm.skip(i as int), key@),
        decreases n - i,
    {
        let hit = fields[i].0.eq(key);
        proof {
            assert(fm.skip(i as int)[0] == fm[i as int]);
        }
        if hit {
            return Some(&fields[i].1);
        }
        proof {
            assert(fm.skip(i as int).skip(1) =~= fm.skip(i as int + 1));
        }
        i = i + 1;
    }
    proof {
        assert(fm.skip(n as int) =~= Seq::<(Seq<char>, JsonModel)>::empty());
    }
    None
}

/// The hash carried by one entry value, if any.
fn entry_hash(v: &JsonTree) -> (r: Option<String>)
    ensures
        match entry_hash_of(v@) {
            Option::Some(h) => r matches Option::Some(s) && s@ == h,
            Option::None => r is None,
        },
{
    match v {
        JsonTree::Obj(fs) => {
            let key = String::from_str("hash");
            match tree_lookup(fs, &key) {
                Option::Some(w) => match w {
                    JsonTree::Str(h) => Some(h.clone()),
                    _ => None,
                },
                Option::None => None,
            }
        },
        _ => None,
    }
}

/// Reads a parsed document into a manifest, or reports which part of the
/// required shape is missing.
pub fn manifest_from_tree(t: &JsonTree) -> (r: Result<Manifest, ManifestError>)
    ensures
        manifest_result_model(r) == manifest_of_doc(Option::Some(t@)),
{
    match t {
        JsonTree::Obj(top) => {
            let key = String::from_str("objects");
            match tree_lookup(top, &key) {
                Option::Some(o) => match o {
                    JsonTree::Obj(raw_entries) => {
                        proof {
                            lemma_fields_model(raw_entries@);
                        }
                        let ghost target = entries_of(fields_model(raw_entries@));
                        let n = raw_entries.len();
                        let mut entries: Vec<ManifestEntry> = Vec::new();
                        let mut i: usize = 0;
                        while i < n
                            invariant
                                n == raw_entries.len(),
                                0 <= i <= n,
                                target == entries_of(fields_model(raw_entries@)),
                                target.len() == n,
                                forall|j: int| 0 <= j < n ==> #[trigger] target[j] == (EntryModel {
                                    path: raw_entries@[j].0@,
                                    hash: entry_hash_of(crate::json_tree::tree_model(raw_entries@[j].1)),
                                }),
                                entries@.len() == i,
                                forall|j: int| 0 <= j < i ==> #[trigger] entries@[j]@ == target[j],
                            decreases n - i,
                        {
                            let path = raw_entries[i].0.clone();
                            let hash = entry_hash(&raw_entries[i].1);
                            entries.push(ManifestEntry { path, hash });
                            i = i + 1;
                        }
                        let m = Manifest { entries };
                        proof {
                            assert(m@ =~= target);
                        }
                        Ok(m)
                    },
                    _ => Err(ManifestError::ObjectsFieldNotMapping),
                },
                Option::None => Err(ManifestError::MissingObjectsField),
            }
        },
        _ => Err(ManifestError::InvalidManifestShape),
    }
}

/// Parses manifest text. Returns `Ok` exactly when the text is valid JSON
/// whose top level is an object with an `objects` object field; otherwise the
/// error names the first shape requirement the text breaks.
pub fn parse_manifest(text: &str) -> (r: Result<Manifest, ManifestError>)
    ensures
        manifest_result_model(r) == manifest_of_doc(json_doc_of(text@)),
{
    match parse_json(text) {
        Option::Some(v) => {
            let t = tree_of(&v);
            manifest_from_tree(&t)
        },
        Option::None => Err(ManifestError::MalformedManifest),
    }
}

} // verus!
