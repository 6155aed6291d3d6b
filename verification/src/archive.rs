//! The archive installer: reading a release archive held in memory and
//! planning the filesystem operations that install it.
//!
//! The archive bytes are handed to the zip crate behind one trusted
//! wrapper; everything that is then done with the entries — the join of
//! each name onto the destination root, the parent directories, the
//! order of the writes — is verified. Entry names are joined onto the
//! destination root without sanitization: an entry whose name starts
//! with `..` is planned to land outside the destination root. That is a
//! documented hardening gap, not a feature.

use crate::errors::InstallError;
use crate::fsmodel::{clone_bytes, FsOp, OpModel, ops_view};
use crate::paths::{join_path, joined, lemma_joined_has_parent, parent_dir, parent_seq};
use vstd::prelude::*;

verus! {

/// One entry of a release archive: a slash-separated relative name, a
/// directory-marker flag, and the fully decompressed contents.
pub struct ArchiveEntry {
    pub name: String,
    pub is_dir: bool,
    pub data: Vec<u8>,
}

impl View for ArchiveEntry {
    type V = (Seq<char>, bool, Seq<u8>);

    open spec fn view(&self) -> (Seq<char>, bool, Seq<u8>) {
        (self.name@, self.is_dir, self.data@)
    }
}

/// The mathematical form of a list of entries.
pub open spec fn entries_view(s: Seq<ArchiveEntry>) -> Seq<(Seq<char>, bool, Seq<u8>)> {
    Seq::new(s.len(), |i: int| s[i]@)
}

/// What parsing these bytes as a ZIP archive yields: the entries in the
/// archive's native enumeration order, or nothing when the bytes are not
/// a well-formed archive. A function of the bytes alone; its value is
/// fixed by the zip crate, not stated here.
pub uninterp spec fn zip_parse(bytes: Seq<u8>) -> Option<Seq<(Seq<char>, bool, Seq<u8>)>>;

/// Relies on zip::ZipArchive (new, by_index) and its entries' name,
/// is_dir and Read implementation: collects every entry of the archive
/// held in `bytes`, in the archive's native order, with its fully
/// decompressed contents. Success and the entries depend on the bytes
/// alone.
#[verifier::external_body]
fn read_archive(bytes: &Vec<u8>) -> (r: Result<Vec<ArchiveEntry>, InstallError>)
    ensures
        r is Ok <==> zip_parse(bytes@) is Some,
        r is Ok ==> entries_view(r->Ok_0@) == zip_parse(bytes@)->Some_0,
        r is Err ==> r->Err_0 is ArchiveFormat,
{
    let mut archive = zip::ZipArchive::new(std::io::Cursor::new(bytes.as_slice())).map_err(
        |_| InstallError::ArchiveFormat,
    )?;
    let mut out: Vec<ArchiveEntry> = Vec::new();
    for i in 0..archive.len() {
        let mut f = archive.by_index(i).map_err(|_| InstallError::ArchiveFormat)?;
        let name = f.name().to_owned();
        let is_dir = f.is_dir();
        let mut data: Vec<u8> = Vec::new();
        std::io::Read::read_to_end(&mut f, &mut data).map_err(|_| InstallError::ArchiveFormat)?;
        out.push(ArchiveEntry { name, is_dir, data });
    }
    Ok(out)
}

/// The operations that install one entry under `dest`: a directory entry
/// becomes one create; a file entry becomes a create of its parent
/// directory followed by the write of its contents.
pub open spec fn entry_ops(dest: Seq<char>, e: (Seq<char>, bool, Seq<u8>)) -> Seq<OpModel> {
    if e.1 {
        seq![OpModel::CreateDirAll(joined(dest, e.0))]
    } else {
        seq![
            OpModel::CreateDirAll(parent_seq(joined(dest, e.0))),
            OpModel::WriteFile(joined(dest, e.0), e.2),
        ]
    }
}

/// The operations that install a list of entries, in order.
pub open spec fn extract_ops_spec(
    dest: Seq<char>,
    entries: Seq<(Seq<char>, bool, Seq<u8>)>,
) -> Seq<OpModel>
    decreases entries.len(),
{
    if entries.len() == 0 {
        Seq::empty()
    } else {
        extract_ops_spec(dest, entries.drop_last()) + entry_ops(dest, entries.last())
    }
}

/// Plan the installation of `entries` under `destination_root`: exactly
/// the operations of [`extract_ops_spec`], in the entries' order.
pub fn extraction_ops(destination_root: &str, entries: &Vec<ArchiveEntry>) -> (r: Vec<FsOp>)
    ensures
        ops_view(r@) == extract_ops_spec(destination_root@, entries_view(entries@)),
{
    let mut ops: Vec<FsOp> = Vec::new();
    proof {
        assert(entries_view(entries@).subrange(0, 0).len() == 0);
        assert(ops_view(ops@) =~= extract_ops_spec(
            destination_root@,
            entries_view(entries@).subrange(0, 0),
        ));
    }
    let mut i: usize = 0;
    while i < entries.len()
        invariant
            i <= entries.len(),
            ops_view(ops@) == extract_ops_spec(
                destination_root@,
                entries_view(entries@).subrange(0, i as int),
            ),
        decreases entries.len() - i,
    {
        let ghost t0: Seq<(Seq<char>, bool, Seq<u8>)> = entries_view(entries@).subrange(
            0,
            i as int,
        );
        let ghost t1: Seq<(Seq<char>, bool, Seq<u8>)> = entries_view(entries@).subrange(
            0,
            i as int + 1,
        );
        let ghost before: Seq<FsOp> = ops@;
        let e = &entries[i];
        proof {
            assert(t1.last() == entries@[i as int]@);
        }
        let p = join_path(destination_root, e.name.as_str());
        if e.is_dir {
            ops.push(FsOp::CreateDirAll(p));
            proof {
                assert(ops_view(ops@) =~= ops_view(before) + entry_ops(
                    destination_root@,
                    t1.last(),
                ));
            }
        } else {
            proof {
                lemma_joined_has_parent(destination_root@, e.name@);
            }
            let par = parent_dir(p.as_str()).unwrap();
            ops.push(FsOp::CreateDirAll(par));
            ops.push(FsOp::WriteFile(p, clone_bytes(&e.data)));
            proof {
                assert(ops_view(ops@) =~= ops_view(before) + entry_ops(
                    destination_root@,
                    t1.last(),
                ));
            }
        }
        proof {
            assert(t1.drop_last() =~= t0);
        }
        i = i + 1;
    }
    proof {
        assert(entries_view(entries@).subrange(0, entries@.len() as int) =~= entries_view(
            entries@,
        ));
    }
    ops
}

/// Open `archive_bytes` as a ZIP archive and plan its installation under
/// `destination_root`. Succeeds exactly when the bytes are a well-formed
/// archive, and then yields exactly the operations of
/// [`extract_ops_spec`] on the archive's entries; malformed bytes are
/// reported as an archive-format failure.
pub fn extract(archive_bytes: &Vec<u8>, destination_root: &str) -> (r: Result<
    Vec<FsOp>,
    InstallError,
>)
    ensures
        r is Ok <==> zip_parse(archive_bytes@) is Some,
        r is Ok ==> ops_view(r->Ok_0@) == extract_ops_spec(
            destination_root@,
            zip_parse(archive_bytes@)->Some_0,
        ),
        r is Err ==> r->Err_0 is ArchiveFormat,
{
    match read_archive(archive_bytes) {
        Ok(entries) => Ok(extraction_ops(destination_root, &entries)),
        Err(e) => Err(e),
    }
}

} // verus!
