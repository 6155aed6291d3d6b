//! A mathematical model of the filesystem slice the installer touches,
//! together with an executable in-memory filesystem.
//!
//! Every effect the installer has on disk is first planned as a list of
//! [`FsOp`] values; [`apply_ops`] says what such a list does to a
//! filesystem, modelled as a set of directories and a map from file paths
//! to contents. [`FsSim`] is an executable filesystem that provably
//! follows the model, so the planned operations can be exercised without
//! touching a disk; an unverified shell replays the same operations
//! against the real one.

use crate::paths::{joined, last_slash_idx};
use vstd::prelude::*;

verus! {

/// One planned filesystem operation.
#[derive(Debug, Clone, PartialEq, Eq)]
pub enum FsOp {
    /// Create this directory and every missing ancestor; do nothing for
    /// the parts that already exist.
    CreateDirAll(String),
    /// Write these bytes to this path, replacing any previous contents.
    WriteFile(String, Vec<u8>),
    /// Remove the file at this path; do nothing if it is absent.
    RemoveFile(String),
}

/// The mathematical form of one operation.
pub ghost enum OpModel {
    CreateDirAll(Seq<char>),
    WriteFile(Seq<char>, Seq<u8>),
    RemoveFile(Seq<char>),
}

impl View for FsOp {
    type V = OpModel;

    open spec fn view(&self) -> OpModel {
        match self {
            FsOp::CreateDirAll(p) => OpModel::CreateDirAll(p@),
            FsOp::WriteFile(p, d) => OpModel::WriteFile(p@, d@),
            FsOp::RemoveFile(p) => OpModel::RemoveFile(p@),
        }
    }
}

/// The mathematical form of a list of operations.
pub open spec fn ops_view(s: Seq<FsOp>) -> Seq<OpModel> {
    Seq::new(s.len(), |i: int| s[i]@)
}

/// A filesystem: the set of directories that exist and the contents of
/// each file that exists.
#[verifier::ext_equal]
pub ghost struct FsState {
    pub dirs: Set<Seq<char>>,
    pub files: Map<Seq<char>, Seq<u8>>,
}

impl FsState {
    /// A filesystem with no directories and no files.
    pub open spec fn empty() -> FsState {
        FsState { dirs: Set::empty(), files: Map::empty() }
    }
}

/// The directories that creating `p` with all its ancestors brings into
/// existence: `p` itself and every prefix of `p` that ends right before a
/// separator.
pub open spec fn dir_closure(p: Seq<char>) -> Set<Seq<char>> {
    Set::new(
        |q: Seq<char>|
            q == p || (q.len() < p.len() && p[q.len() as int] == '/' && q == p.subrange(
                0,
                q.len() as int,
            )),
    )
}

/// What one operation does to a filesystem.
pub open spec fn apply_op(fs: FsState, op: OpModel) -> FsState {
    match op {
        OpModel::CreateDirAll(p) => FsState { dirs: fs.dirs.union(dir_closure(p)), ..fs },
        OpModel::WriteFile(p, d) => FsState { files: fs.files.insert(p, d), ..fs },
        OpModel::RemoveFile(p) => FsState { files: fs.files.remove(p), ..fs },
    }
}

/// What a list of operations, applied in order, does to a filesystem.
pub open spec fn apply_ops(fs: FsState, ops: Seq<OpModel>) -> FsState
    decreases ops.len(),
{
    if ops.len() == 0 {
        fs
    } else {
        apply_op(apply_ops(fs, ops.drop_last()), ops.last())
    }
}

/// The directory set an in-memory filesystem's directory list denotes.
pub open spec fn dirs_set(s: Seq<String>) -> Set<Seq<char>>
    decreases s.len(),
{
    if s.len() == 0 {
        Set::empty()
    } else {
        dirs_set(s.drop_last()).insert(s.last()@)
    }
}

/// The file map an in-memory filesystem's entry list denotes: a later
/// entry for the same path wins.
pub open spec fn files_map(s: Seq<(String, Vec<u8>)>) -> Map<Seq<char>, Seq<u8>>
    decreases s.len(),
{
    if s.len() == 0 {
        Map::empty()
    } else {
        files_map(s.drop_last()).insert(s.last().0@, s.last().1@)
    }
}

/// An executable in-memory filesystem that follows the model exactly.
pub struct FsSim {
    dirs: Vec<String>,
    files: Vec<(String, Vec<u8>)>,
}

impl View for FsSim {
    type V = FsState;

    closed spec fn view(&self) -> FsState {
        FsState { dirs: dirs_set(self.dirs@), files: files_map(self.files@) }
    }
}

/// A fresh copy of a byte vector.
pub fn clone_bytes(v: &Vec<u8>) -> (r: Vec<u8>)
    ensures
        r@ == v@,
{
    let mut r: Vec<u8> = Vec::new();
    let mut i: usize = 0;
    while i < v.len()
        invariant
            i <= v.len(),
            r@ =~= v@.subrange(0, i as int),
        decreases v.len() - i,
    {
        r.push(v[i]);
        i = i + 1;
    }
    proof {
        assert(v@.subrange(0, v@.len() as int) =~= v@);
    }
    r
}

/// The prefixes of `p` shorter than `i` that end right before a separator.
spec fn prefix_dirs(p: Seq<char>, i: int) -> Set<Seq<char>> {
    Set::new(
        |q: Seq<char>|
            q.len() < i && q.len() < p.len() && p[q.len() as int] == '/' && q == p.subrange(
                0,
                q.len() as int,
            ),
    )
}

impl FsSim {
    /// An in-memory filesystem with nothing in it.
    pub fn new() -> (r: FsSim)
        ensures
            r@ == FsState::empty(),
    {
        let r = FsSim { dirs: Vec::new(), files: Vec::new() };
        proof {
            assert(r@ =~= FsState::empty());
        }
        r
    }

    fn apply_create_dir(&mut self, p: &String)
        ensures
            final(self)@ == apply_op(old(self)@, OpModel::CreateDirAll(p@)),
    {
        let ghost orig: Seq<String> = self.dirs@;
        let n: usize = p.as_str().unicode_len();
        let mut i: usize = 0;
        proof {
            assert(dirs_set(orig) =~= dirs_set(orig).union(prefix_dirs(p@, 0)));
        }
        while i < n
            invariant
                i <= n,
                n == p@.len(),
                self.files@ == old(self).files@,
                dirs_set(self.dirs@) == dirs_set(orig).union(prefix_dirs(p@, i as int)),
            decreases n - i,
        {
            if p.as_str().get_char(i) == '/' {
                let q = p.as_str().substring_char(0, i).to_owned();
                let ghost before: Seq<String> = self.dirs@;
                self.dirs.push(q);
                proof {
                    assert(self.dirs@.drop_last() =~= before);
                    assert(dirs_set(self.dirs@) =~= dirs_set(orig).union(
                        prefix_dirs(p@, i as int + 1),
                    ));
                }
            } else {
                proof {
                    assert(prefix_dirs(p@, i as int + 1) =~= prefix_dirs(p@, i as int));
                }
            }
            i = i + 1;
        }
        let ghost before: Seq<String> = self.dirs@;
        self.dirs.push(p.clone());
        proof {
            assert(self.dirs@.drop_last() =~= before);
            assert(dir_closure(p@) =~= prefix_dirs(p@, n as int).insert(p@));
            assert(dirs_set(self.dirs@) =~= dirs_set(orig).union(dir_closure(p@)));
            assert(final(self)@ =~= apply_op(old(self)@, OpModel::CreateDirAll(p@)));
        }
    }

    fn apply_write_file(&mut self, p: &String, d: &Vec<u8>)
        ensures
            final(self)@ == apply_op(old(self)@, OpModel::WriteFile(p@, d@)),
    {
        let ghost before: Seq<(String, Vec<u8>)> = self.files@;
        self.files.push((p.clone(), clone_bytes(d)));
        proof {
            assert(self.files@.drop_last() =~= before);
            assert(final(self)@ =~= apply_op(old(self)@, OpModel::WriteFile(p@, d@)));
        }
    }

    fn apply_remove_file(&mut self, p: &String)
        ensures
            final(self)@ == apply_op(old(self)@, OpModel::RemoveFile(p@)),
    {
        let mut out: Vec<(String, Vec<u8>)> = Vec::new();
        let mut j: usize = 0;
        proof {
            assert(files_map(out@) =~= files_map(self.files@.subrange(0, 0)).remove(p@));
        }
        while j < self.files.len()
            invariant
                j <= self.files.len(),
                self.dirs@ == old(self).dirs@,
                self.files@ == old(self).files@,
                files_map(out@) == files_map(self.files@.subrange(0, j as int)).remove(p@),
            decreases self.files.len() - j,
        {
            let entry = &self.files[j];
            let ghost t0: Seq<(String, Vec<u8>)> = self.files@.subrange(0, j as int);
            let ghost t1: Seq<(String, Vec<u8>)> = self.files@.subrange(0, j as int + 1);
            proof {
                assert(t1.drop_last() =~= t0);
            }
            if entry.0 == *p {
                proof {
                    assert(files_map(t1).remove(p@) =~= files_map(t0).remove(p@));
                }
            } else {
                let ghost before: Seq<(String, Vec<u8>)> = out@;
                out.push((entry.0.clone(), clone_bytes(&entry.1)));
                proof {
                    assert(out@.drop_last() =~= before);
                    assert(files_map(t1).remove(p@) =~= files_map(t0).remove(p@).insert(
                        t1.last().0@,
                        t1.last().1@,
                    ));
                }
            }
            j = j + 1;
        }
        proof {
            assert(self.files@.subrange(0, self.files@.len() as int) =~= self.files@);
        }
        self.files = out;
        proof {
            assert(final(self)@ =~= apply_op(old(self)@, OpModel::RemoveFile(p@)));
        }
    }

    /// Apply one operation, exactly as the model says.
    pub fn apply(&mut self, op: &FsOp)
        ensures
            final(self)@ == apply_op(old(self)@, op@),
    {
        match op {
            FsOp::CreateDirAll(p) => self.apply_create_dir(p),
            FsOp::WriteFile(p, d) => self.apply_write_file(p, d),
            FsOp::RemoveFile(p) => self.apply_remove_file(p),
        }
    }

    /// Apply a list of operations in order, exactly as the model says.
    pub fn apply_all(&mut self, ops: &Vec<FsOp>)
        ensures
            final(self)@ == apply_ops(old(self)@, ops_view(ops@)),
    {
        let mut i: usize = 0;
        proof {
            assert(ops_view(ops@).subrange(0, 0).len() == 0);
        }
        while i < ops.len()
            invariant
                i <= ops.len(),
                self@ == apply_ops(old(self)@, ops_view(ops@).subrange(0, i as int)),
            decreases ops.len() - i,
        {
            let ghost t0: Seq<OpModel> = ops_view(ops@).subrange(0, i as int);
            let ghost t1: Seq<OpModel> = ops_view(ops@).subrange(0, i as int + 1);
            self.apply(&ops[i]);
            proof {
                assert(t1.drop_last() =~= t0);
                assert(t1.last() == ops@[i as int]@);
            }
            i = i + 1;
        }
        proof {
            assert(ops_view(ops@).subrange(0, ops@.len() as int) =~= ops_view(ops@));
        }
    }

    /// Whether this directory exists.
    pub fn dir_exists(&self, p: &str) -> (r: bool)
        ensures
            r == self@.dirs.contains(p@),
    {
        let key: String = p.to_owned();
        let mut j: usize = self.dirs.len();
        proof {
            assert(self.dirs@.subrange(0, self.dirs@.len() as int) =~= self.dirs@);
        }
        while j > 0
            invariant
                j <= self.dirs@.len(),
                key@ == p@,
                self@.dirs.contains(p@) == dirs_set(self.dirs@.subrange(0, j as int)).contains(
                    p@,
                ),
            decreases j,
        {
            let ghost t1: Seq<String> = self.dirs@.subrange(0, j as int);
            let entry: &String = &self.dirs[j - 1];
            proof {
                assert(t1.drop_last() =~= self.dirs@.subrange(0, j as int - 1));
                assert(dirs_set(t1) == dirs_set(t1.drop_last()).insert(t1.last()@));
                assert(t1.last() == self.dirs@[j as int - 1]);
                assert(entry@ == t1.last()@);
            }
            if *entry == key {
                proof {
                    assert(dirs_set(t1).contains(p@));
                }
                return true;
            }
            j = j - 1;
        }
        proof {
            assert(self.dirs@.subrange(0, 0).len() == 0);
        }
        false
    }

    /// The contents of the file at `p`, or `None` if no such file exists.
    pub fn file_content(&self, p: &str) -> (r: Option<Vec<u8>>)
        ensures
            r is Some <==> self@.files.dom().contains(p@),
            r is Some ==> r->Some_0@ == self@.files[p@],
    {
        let key: String = p.to_owned();
        let mut j: usize = self.files.len();
        proof {
            assert(self.files@.subrange(0, self.files@.len() as int) =~= self.files@);
        }
        while j > 0
            invariant
                j <= self.files@.len(),
                key@ == p@,
                self@.files.dom().contains(p@) == files_map(
                    self.files@.subrange(0, j as int),
                ).dom().contains(p@),
                self@.files.dom().contains(p@) ==> self@.files[p@] == files_map(
                    self.files@.subrange(0, j as int),
                )[p@],
            decreases j,
        {
            let ghost t1: Seq<(String, Vec<u8>)> = self.files@.subrange(0, j as int);
            let entry = &self.files[j - 1];
            proof {
                assert(t1.drop_last() =~= self.files@.subrange(0, j as int - 1));
                assert(files_map(t1) == files_map(t1.drop_last()).insert(
                    t1.last().0@,
                    t1.last().1@,
                ));
                assert(t1.last() == self.files@[j as int - 1]);
                assert(*entry == t1.last());
            }
            if entry.0 == key {
                proof {
                    assert(files_map(t1).dom().contains(p@));
                    assert(files_map(t1)[p@] == t1.last().1@);
                }
                return Some(clone_bytes(&entry.1));
            }
            j = j - 1;
        }
        proof {
            assert(self.files@.subrange(0, 0).len() == 0);
        }
        None
    }
}

} // verus!
