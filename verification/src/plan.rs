//! The two housekeeping steps of the installer, planned as filesystem
//! operations: the remediation step that removes a known-bad file, and
//! the step that guarantees the mods directory exists.

use crate::fsmodel::{apply_op, apply_ops, FsOp, FsState, OpModel, ops_view};
use crate::paths::mods_dir;
use vstd::prelude::*;

verus! {

/// The operations that guarantee the mods directory exists under
/// `destination_root`.
pub open spec fn ensure_mods_spec(destination_root: Seq<char>) -> Seq<OpModel> {
    seq![OpModel::CreateDirAll(destination_root + "/engage/mods"@)]
}

/// Plan the step that guarantees the mods directory exists: one
/// create-with-ancestors operation, a no-op on a filesystem that already
/// has the directory.
pub fn ensure_mods_ops(destination_root: &str) -> (r: Vec<FsOp>)
    ensures
        ops_view(r@) == ensure_mods_spec(destination_root@),
{
    let p = mods_dir(destination_root);
    let mut r: Vec<FsOp> = Vec::new();
    r.push(FsOp::CreateDirAll(p));
    proof {
        assert(ops_view(r@) =~= ensure_mods_spec(destination_root@));
    }
    r
}

/// The operations of the remediation step: remove the known-bad file when
/// the probe found it, nothing otherwise.
pub open spec fn remediation_spec(bad_file: Seq<char>, file_exists: bool) -> Seq<OpModel> {
    if file_exists {
        seq![OpModel::RemoveFile(bad_file)]
    } else {
        Seq::empty()
    }
}

/// Plan the remediation step. The existence probe's result is passed in,
/// so that the plan is a pure function; remediation is best-effort and
/// never blocks the rest of the pipeline.
pub fn remediation_ops(bad_file: &str, file_exists: bool) -> (r: Vec<FsOp>)
    ensures
        ops_view(r@) == remediation_spec(bad_file@, file_exists),
{
    let mut r: Vec<FsOp> = Vec::new();
    if file_exists {
        r.push(FsOp::RemoveFile(bad_file.to_owned()));
    }
    proof {
        assert(ops_view(r@) =~= remediation_spec(bad_file@, file_exists));
    }
    r
}

/// Law: ensuring the mods directory twice leaves exactly the filesystem
/// that ensuring it once leaves.
pub proof fn lemma_ensure_mods_idempotent(fs: FsState, destination_root: Seq<char>)
    ensures
        apply_ops(
            apply_ops(fs, ensure_mods_spec(destination_root)),
            ensure_mods_spec(destination_root),
        ) == apply_ops(fs, ensure_mods_spec(destination_root)),
{
    let ops = ensure_mods_spec(destination_root);
    let once = apply_ops(fs, ops);
    let twice = apply_ops(once, ops);
    assert(ops.drop_last() =~= Seq::<OpModel>::empty());
    assert(apply_ops(fs, Seq::<OpModel>::empty()) == fs);
    assert(apply_ops(once, Seq::<OpModel>::empty()) == once);
    assert(once == apply_op(apply_ops(fs, ops.drop_last()), ops.last()));
    assert(twice == apply_op(apply_ops(once, ops.drop_last()), ops.last()));
    assert(twice.dirs =~= once.dirs);
    assert(twice =~= once);
}

/// Law: when the known-bad file exists, remediation removes exactly that
/// file and touches nothing else, so a subsequent existence check finds
/// nothing; when it does not exist, remediation leaves the filesystem
/// unchanged.
pub proof fn lemma_remediation(fs: FsState, bad_file: Seq<char>)
    ensures
        !apply_ops(fs, remediation_spec(bad_file, true)).files.dom().contains(bad_file),
        apply_ops(fs, remediation_spec(bad_file, true)).files == fs.files.remove(bad_file),
        apply_ops(fs, remediation_spec(bad_file, true)).dirs == fs.dirs,
        apply_ops(fs, remediation_spec(bad_file, false)) == fs,
{
    let ops = remediation_spec(bad_file, true);
    assert(ops.drop_last() =~= Seq::<OpModel>::empty());
    assert(apply_ops(fs, Seq::<OpModel>::empty()) == fs);
    assert(apply_ops(fs, ops) == apply_op(apply_ops(fs, ops.drop_last()), ops.last()));
    assert(apply_ops(fs, remediation_spec(bad_file, false)) == fs);
}

} // verus!
