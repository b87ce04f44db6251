//! Object resolution: from a content hash to the blob's place in the store.
//!
//! A blob with hash `h` lives at `root/h[0..2]/h`: a two-level layout that
//! fans objects out by the first two characters of the hash. Resolution
//! builds that candidate path; whether the blob actually exists on disk is a
//! filesystem probe that the caller performs and reports back.

use vstd::prelude::*;

verus! {

/// Why a hash failed to resolve.
#[derive(Debug)]
pub enum ResolveError {
    /// The hash has fewer than two characters, so no store path can be
    /// formed from it.
    MalformedHash,
    /// The store has no blob at the attempted path (carried here).
    ObjectNotFound(String),
}

/// The candidate store path for a hash: `root/hash[0..2]/hash`.
pub open spec fn object_path_spec(root: Seq<char>, hash: Seq<char>) -> Seq<char>
    recommends
        hash.len() >= 2,
{
    root + "/"@ + hash.subrange(0, 2) + "/"@ + hash
}

/// Builds the candidate store path for `hash` under `objects_folder`.
/// A hash of fewer than two characters cannot be addressed and is rejected
/// as malformed; the store probe for the returned path is the caller's.
pub fn get_hash_path(objects_folder: &str, hash: &str) -> (r: Result<String, ResolveError>)
    ensures
        hash@.len() >= 2 ==> (r matches Ok(p) && p@ == object_path_spec(objects_folder@, hash@)),
        hash@.len() < 2 ==> (r matches Err(e) && e is MalformedHash),
{
    let n = hash.unicode_len();
    if n < 2 {
        return Err(ResolveError::MalformedHash);
    }
    let prefix = hash.substring_char(0, 2);
    let mut p = String::from_str(objects_folder);
    p.append("/");
    p.append(prefix);
    p.append("/");
    p.append(hash);
    Ok(p)
}

/// Turns the result of the caller's existence probe into the resolution
/// result: the resolved path when the blob is present, `ObjectNotFound`
/// carrying the attempted path when it is not.
pub fn finish_resolve(candidate: String, present: bool) -> (r: Result<String, ResolveError>)
    ensures
        present ==> (r matches Ok(p) && p@ == candidate@),
        !present ==> (r matches Err(e) && (e matches ResolveError::ObjectNotFound(q) && q@
            == candidate@)),
{
    if present {
        Ok(candidate)
    } else {
        Err(ResolveError::ObjectNotFound(candidate))
    }
}

} // verus!
