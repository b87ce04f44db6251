//! Per-entry materialization: the decisions that take one selected manifest
//! entry to a per-entry outcome.
//!
//! The filesystem work itself (creating directories, probing the store,
//! copying or linking) is the caller's; this module owns every decision
//! between those steps. An entry's processing is a small machine: the caller
//! asks what is needed next, performs it, and reports whether it succeeded.
//! Every event sequence ends in a `Done` state carrying one `Outcome`, so no
//! single entry's failure can abort a run: failure isolation is a property of
//! the machine, not of the driver.

use vstd::prelude::*;

use crate::resolve::object_path_spec;
use crate::resolve::get_hash_path;

verus! {

/// The per-entry outcome of one materialization attempt.
#[derive(Clone, Copy, Debug, PartialEq, Eq, Structural)]
pub enum Outcome {
    /// The destination file (or link) was produced.
    Materialized,
    /// The entry carries no usable hash string.
    SkippedNoHash,
    /// The hash is malformed or names no existing object in the store.
    SkippedUnresolvedHash,
    /// The destination's parent directory could not be provided.
    SkippedDirectoryError,
    /// Copying or linking failed.
    SkippedCopyOrLinkError,
}

/// Model of an entry's processing state.
#[allow(inconsistent_fields)]
pub enum StateModel {
    /// The destination's parent directory must be provided.
    NeedDir { dir: Seq<char>, object: Option<Seq<char>>, dest: Seq<char>, link: bool },
    /// The store must be probed for the object.
    NeedProbe { object: Seq<char>, dest: Seq<char>, link: bool },
    /// The object must be copied (or linked) to the destination.
    NeedTransfer { object: Seq<char>, dest: Seq<char>, link: bool },
    /// Processing has ended with a per-entry outcome.
    Done { outcome: Outcome },
}

/// An entry's processing state. The caller performs the step the state asks
/// for and reports the result through the matching transition function.
#[allow(inconsistent_fields)]
pub enum EntryState {
    NeedDir { dir: String, object: Option<String>, dest: String, link: bool },
    NeedProbe { object: String, dest: String, link: bool },
    NeedTransfer { object: String, dest: String, link: bool },
    Done { outcome: Outcome },
}

impl View for EntryState {
    type V = StateModel;

    open spec fn view(&self) -> StateModel {
        match self {
            EntryState::NeedDir { dir, object, dest, link } => StateModel::NeedDir {
                dir: dir@,
                object: match object {
                    Option::Some(o) => Option::Some(o@),
                    Option::None => Option::None,
                },
                dest: dest@,
                link: *link,
            },
            EntryState::NeedProbe { object, dest, link } => StateModel::NeedProbe {
                object: object@,
                dest: dest@,
                link: *link,
            },
            EntryState::NeedTransfer { object, dest, link } => StateModel::NeedTransfer {
                object: object@,
                dest: dest@,
                link: *link,
            },
            EntryState::Done { outcome } => StateModel::Done { outcome: *outcome },
        }
    }
}

/// Two path components joined with a forward slash.
pub open spec fn join_spec(base: Seq<char>, rest: Seq<char>) -> Seq<char> {
    base + "/"@ + rest
}

/// The position of the last forward slash, or `-1` when there is none.
pub open spec fn last_slash(s: Seq<char>) -> int
    decreases s.len(),
{
    if s.len() == 0 {
        -1
    } else if s[s.len() - 1] == '/' {
        s.len() - 1
    } else {
        last_slash(s.drop_last())
    }
}

/// Everything before the last forward slash: the parent directory of a
/// slash-separated path, or empty when the path has no slash.
pub open spec fn parent_spec(s: Seq<char>) -> Seq<char> {
    if last_slash(s) >= 0 {
        s.subrange(0, last_slash(s))
    } else {
        Seq::empty()
    }
}

/// Joins two path components with a forward slash.
pub fn join_path(base: &str, rest: &str) -> (r: String)
    ensures
        r@ == join_spec(base@, rest@),
{
    let mut s = String::from_str(base);
    s.append("/");
    s.append(rest);
    s
}

/// The parent directory of a slash-separated path.
pub fn parent_of(s: &str) -> (r: String)
    ensures
        r@ == parent_spec(s@),
{
    let n = s.unicode_len();
    let mut i: usize = n;
    proof {
        assert(s@.take(n as int) =~= s@);
    }
    while i > 0
        invariant
            0 <= i <= n,
            n == s@.len(),
            last_slash(s@) == last_slash(s@.take(i as int)),
        decreases i,
    {
        let c = s.get_char(i - 1);
        proof {
            assert(s@.take(i as int).last() == s@[i as int - 1]);
            assert(s@.take(i as int).drop_last() =~= s@.take(i as int - 1));
        }
        if c == '/' {
            let p = s.substring_char(0, i - 1);
            return p.to_owned();
        }
        i = i - 1;
    }
    String::new()
}

/// The state an entry starts in: no hash means an immediate skip; otherwise
/// the destination and its parent are fixed, the store path is fixed when
/// the hash is long enough to address one, and the directory step is next.
pub open spec fn start_spec(
    out_root: Seq<char>,
    objects_root: Seq<char>,
    path: Seq<char>,
    hash: Option<Seq<char>>,
    link: bool,
) -> StateModel {
    match hash {
        Option::None => StateModel::Done { outcome: Outcome::SkippedNoHash },
        Option::Some(h) => StateModel::NeedDir {
            dir: parent_spec(join_spec(out_root, path)),
            object: if h.len() >= 2 {
                Option::Some(object_path_spec(objects_root, h))
            } else {
                Option::None
            },
            dest: join_spec(out_root, path),
            link: link,
        },
    }
}

/// The state after the directory step: a directory failure skips the entry;
/// otherwise a malformed hash is reported as unresolved, and a well-formed
/// one sends the caller to probe the store.
pub open spec fn dir_made_spec(st: StateModel, ok: bool) -> StateModel {
    match st {
        StateModel::NeedDir { dir, object, dest, link } => if !ok {
            StateModel::Done { outcome: Outcome::SkippedDirectoryError }
        } else {
            match object {
                Option::Some(o) => StateModel::NeedProbe { object: o, dest: dest, link: link },
                Option::None => StateModel::Done { outcome: Outcome::SkippedUnresolvedHash },
            }
        },
        _ => st,
    }
}

/// The state after the store probe: an absent object skips the entry, a
/// present one is transferred next.
pub open spec fn probed_spec(st: StateModel, present: bool) -> StateModel {
    match st {
        StateModel::NeedProbe { object, dest, link } => if present {
            StateModel::NeedTransfer { object: object, dest: dest, link: link }
        } else {
            StateModel::Done { outcome: Outcome::SkippedUnresolvedHash }
        },
        _ => st,
    }
}

/// The state after the transfer: materialized on success, a per-entry skip
/// on failure.
pub open spec fn transferred_spec(st: StateModel, ok: bool) -> StateModel {
    match st {
        StateModel::NeedTransfer { object, dest, link } => StateModel::Done {
            outcome: if ok {
                Outcome::Materialized
            } else {
                Outcome::SkippedCopyOrLinkError
            },
        },
        _ => st,
    }
}

/// Starts processing one entry.
pub fn start_entry(
    out_root: &str,
    objects_root: &str,
    path: &str,
    hash: &Option<String>,
    link: bool,
) -> (r: EntryState)
    ensures
        r@ == start_spec(
            out_root@,
            objects_root@,
            path@,
            match hash {
                Option::Some(h) => Option::Some(h@),
                Option::None => Option::None,
            },
            link,
        ),
{
    match hash {
        Option::Some(h) => {
            let dest = join_path(out_root, path);
            let dir = parent_of(dest.as_str());
            let object = match get_hash_path(objects_root, h.as_str()) {
                Ok(p) => Some(p),
                Err(_) => None,
            };
            EntryState::NeedDir { dir, object, dest, link }
        },
        Option::None => EntryState::Done { outcome: Outcome::SkippedNoHash },
    }
}

/// Reports whether the directory step succeeded.
pub fn on_dir_made(st: EntryState, ok: bool) -> (r: EntryState)
    ensures
        r@ == dir_made_spec(st@, ok),
{
    match st {
        EntryState::NeedDir { dir, object, dest, link } => if !ok {
            EntryState::Done { outcome: Outcome::SkippedDirectoryError }
        } else {
            match object {
                Option::Some(o) => EntryState::NeedProbe { object: o, dest, link },
                Option::None => EntryState::Done { outcome: Outcome::SkippedUnresolvedHash },
            }
        },
        _ => st,
    }
}

/// Reports whether the store probe found the object.
pub fn on_probed(st: EntryState, present: bool) -> (r: EntryState)
    ensures
        r@ == probed_spec(st@, present),
{
    match st {
        EntryState::NeedProbe { object, dest, link } => if present {
            EntryState::NeedTransfer { object, dest, link }
        } else {
            EntryState::Done { outcome: Outcome::SkippedUnresolvedHash }
        },
        _ => st,
    }
}

/// Reports whether the copy or link succeeded.
pub fn on_transferred(st: EntryState, ok: bool) -> (r: EntryState)
    ensures
        r@ == transferred_spec(st@, ok),
{
    match st {
        EntryState::NeedTransfer { object: _, dest: _, link: _ } => EntryState::Done {
            outcome: if ok {
                Outcome::Materialized
            } else {
                Outcome::SkippedCopyOrLinkError
            },
        },
        _ => st,
    }
}

/// The state an entry ends in, as a function of the entry and the three
/// reported events. Events for steps that are never reached (an entry that
/// is done early ignores later reports) pass through.
pub open spec fn entry_final_spec(
    out_root: Seq<char>,
    objects_root: Seq<char>,
    path: Seq<char>,
    hash: Option<Seq<char>>,
    link: bool,
    dir_ok: bool,
    present: bool,
    transfer_ok: bool,
) -> StateModel {
    transferred_spec(
        probed_spec(
            dir_made_spec(start_spec(out_root, objects_root, path, hash, link), dir_ok),
            present,
        ),
        transfer_ok,
    )
}

/// A selected entry with a well-formed hash, a successful directory step, a
/// present object and a successful transfer is materialized — and it is
/// materialized from exactly the store path its hash resolves to, onto
/// exactly the output root joined with its logical path.
pub proof fn lemma_entry_success(
    out_root: Seq<char>,
    objects_root: Seq<char>,
    path: Seq<char>,
    h: Seq<char>,
    link: bool,
)
    requires
        h.len() >= 2,
    ensures
        ({
            let s0 = start_spec(out_root, objects_root, path, Option::Some(h), link);
            let s1 = dir_made_spec(s0, true);
            let s2 = probed_spec(s1, true);
            let s3 = transferred_spec(s2, true);
            &&& s1 == (StateModel::NeedProbe {
                object: object_path_spec(objects_root, h),
                dest: join_spec(out_root, path),
                link: link,
            })
            &&& s2 == (StateModel::NeedTransfer {
                object: object_path_spec(objects_root, h),
                dest: join_spec(out_root, path),
                link: link,
            })
            &&& s3 == (StateModel::Done { outcome: Outcome::Materialized })
        }),
{
}

/// An entry whose hash does not resolve to an existing object ends as a
/// skip: the machine never reaches the transfer step, so no destination file
/// is written for it, and the outcome is a per-entry skip, not an abort.
pub proof fn lemma_entry_absent(
    out_root: Seq<char>,
    objects_root: Seq<char>,
    path: Seq<char>,
    h: Seq<char>,
    link: bool,
)
    requires
        h.len() >= 2,
    ensures
        ({
            let s0 = start_spec(out_root, objects_root, path, Option::Some(h), link);
            let s1 = dir_made_spec(s0, true);
            let s2 = probed_spec(s1, false);
            &&& !(s0 is NeedTransfer)
            &&& !(s1 is NeedTransfer)
            &&& !(s2 is NeedTransfer)
            &&& s2 == (StateModel::Done { outcome: Outcome::SkippedUnresolvedHash })
        }),
{
}

/// A hash too short to address any object is reported as unresolved right
/// after the directory step: the store is never probed and nothing is
/// transferred for the entry.
pub proof fn lemma_malformed_hash_skips(
    out_root: Seq<char>,
    objects_root: Seq<char>,
    path: Seq<char>,
    h: Seq<char>,
    link: bool,
)
    requires
        h.len() < 2,
    ensures
        ({
            let s0 = start_spec(out_root, objects_root, path, Option::Some(h), link);
            let s1 = dir_made_spec(s0, true);
            s1 == (StateModel::Done { outcome: Outcome::SkippedUnresolvedHash })
        }),
{
}

/// Over a whole manifest: every entry that carries a well-formed hash and
/// whose directory, probe and transfer steps all succeed ends materialized,
/// from exactly the store path its hash resolves to, onto exactly the output
/// root joined with its logical path. The destination bytes being those of
/// the store object is the transfer step's own meaning; which transfer runs,
/// from where to where, is fixed here.
pub proof fn lemma_run_materializes_entries(
    entries: Seq<crate::manifest::EntryModel>,
    out_root: Seq<char>,
    objects_root: Seq<char>,
    link: bool,
)
    ensures
        forall|i: int| 0 <= i < entries.len() ==> match (#[trigger] entries[i]).hash {
            Option::Some(h) => h.len() >= 2 ==> {
                &&& probed_spec(
                    dir_made_spec(
                        start_spec(out_root, objects_root, entries[i].path, Option::Some(h), link),
                        true,
                    ),
                    true,
                ) == (StateModel::NeedTransfer {
                    object: object_path_spec(objects_root, h),
                    dest: join_spec(out_root, entries[i].path),
                    link: link,
                })
                &&& entry_final_spec(
                    out_root,
                    objects_root,
                    entries[i].path,
                    Option::Some(h),
                    link,
                    true,
                    true,
                    true,
                ) == (StateModel::Done { outcome: Outcome::Materialized })
            },
            Option::None => entry_final_spec(
                out_root,
                objects_root,
                entries[i].path,
                Option::None,
                link,
                true,
                true,
                true,
            ) == (StateModel::Done { outcome: Outcome::SkippedNoHash }),
        },
{
    assert forall|i: int| 0 <= i < entries.len() implies match (#[trigger] entries[i]).hash {
        Option::Some(h) => h.len() >= 2 ==> {
            &&& probed_spec(
                dir_made_spec(
                    start_spec(out_root, objects_root, entries[i].path, Option::Some(h), link),
                    true,
                ),
                true,
            ) == (StateModel::NeedTransfer {
                object: object_path_spec(objects_root, h),
                dest: join_spec(out_root, entries[i].path),
                link: link,
            })
            &&& entry_final_spec(
                out_root,
                objects_root,
                entries[i].path,
                Option::Some(h),
                link,
                true,
                true,
                true,
            ) == (StateModel::Done { outcome: Outcome::Materialized })
        },
        Option::None => entry_final_spec(
            out_root,
            objects_root,
            entries[i].path,
            Option::None,
            link,
            true,
            true,
            true,
        ) == (StateModel::Done { outcome: Outcome::SkippedNoHash }),
    } by {
        match entries[i].hash {
            Option::Some(h) => {
                if h.len() >= 2 {
                    lemma_entry_success(out_root, objects_root, entries[i].path, h, link);
                }
            },
            Option::None => {},
        }
    }
}

/// Failure isolation: whatever the entry and whatever the three reported
/// events, processing ends in `Done` with some per-entry outcome. No event
/// sequence can make one entry abort the run.
pub proof fn lemma_entry_always_completes(
    out_root: Seq<char>,
    objects_root: Seq<char>,
    path: Seq<char>,
    hash: Option<Seq<char>>,
    link: bool,
    dir_ok: bool,
    present: bool,
    transfer_ok: bool,
)
    ensures
        ({
            let s0 = start_spec(out_root, objects_root, path, hash, link);
            let s3 = transferred_spec(probed_spec(dir_made_spec(s0, dir_ok), present), transfer_ok);
            s3 is Done
        }),
{
}

} // verus!
