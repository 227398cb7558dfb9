//! The snapshot images of a hypothesis, ready to draw: the approved one and
//! a newly recorded one, each loaded or failed, and whether they match.
use vstd::prelude::*;

verus! {

/// The snapshots of hypothesis `hyp_id`: the current (approved) one and the
/// new one, each either loaded (`THandle`) or failed (`TError`), if present.
#[derive(Debug)]
pub struct SnapshotHandles<THypId, THandle, TError> {
    pub current: Option<Result<THandle, TError>>,
    pub new: Option<Result<THandle, TError>>,
    pub are_identical: bool,
    pub hyp_id: THypId,
}

/// The file names of the snapshots of a hypothesis called `name`: the
/// current one, `<name>.png`, and the new one, `<name>.new.png`.
pub fn snapshot_file_names(name: &str) -> (r: (String, String))
    ensures
        r.0@ == name@ + ".png"@,
        r.1@ == name@ + ".new.png"@,
{
    let mut current = String::from_str(name);
    current.append(".png");
    let mut new = String::from_str(name);
    new.append(".new.png");
    (current, new)
}

/// Whether a directory holds either snapshot, given whether it holds the
/// current one and the new one.
pub open spec fn holds_either(held: (bool, bool)) -> bool {
    held.0 || held.1
}

/// The snapshot directory to load from, given for each directory in order
/// whether it holds the current and the new snapshot: the first that holds
/// either, or none.
pub fn first_snapshot_directory(held: &[(bool, bool)]) -> (r: Option<usize>)
    ensures
        match r {
            Some(i) => i < held@.len() && holds_either(held@[i as int]) && forall|k: int|
                0 <= k < i ==> !holds_either(#[trigger] held@[k]),
            None => forall|k: int| 0 <= k < held@.len() ==> !holds_either(#[trigger] held@[k]),
        },
{
    let mut i: usize = 0;
    while i < held.len()
        invariant
            i <= held@.len(),
            forall|k: int| 0 <= k < i ==> !holds_either(#[trigger] held@[k]),
        decreases held@.len() - i,
    {
        if held[i].0 || held[i].1 {
            return Some(i);
        }
        i = i + 1;
    }
    None
}

/// Whether both snapshots loaded.
pub open spec fn both_loaded<THandle, TError>(
    current: Option<Result<THandle, TError>>,
    new: Option<Result<THandle, TError>>,
) -> bool {
    current matches Some(Ok(_)) && new matches Some(Ok(_))
}

impl<THypId, THandle, TError> SnapshotHandles<THypId, THandle, TError> {
    /// The snapshots found for `hyp_id`; they are identical when both
    /// loaded and their images are equal (`images_equal`, compared before
    /// the images were turned into handles).
    pub fn new(
        hyp_id: THypId,
        current: Option<Result<THandle, TError>>,
        new: Option<Result<THandle, TError>>,
        images_equal: bool,
    ) -> (r: Self)
        ensures
            r.are_identical == (both_loaded(current, new) && images_equal),
            r.current == current,
            r.new == new,
            r.hyp_id == hyp_id,
    {
        let mut are_identical = false;
        if let (Some(Ok(_)), Some(Ok(_))) = (&current, &new) {
            are_identical = images_equal;
        }
        SnapshotHandles { current, new, are_identical, hyp_id }
    }

    /// No snapshots for `hyp_id`; nothing differs, so they count as identical.
    pub fn empty(hyp_id: THypId) -> (r: Self)
        ensures
            r.current is None,
            r.new is None,
            r.are_identical,
            r.hyp_id == hyp_id,
    {
        SnapshotHandles { current: None, new: None, are_identical: true, hyp_id }
    }
}

} // verus!
