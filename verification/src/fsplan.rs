//! The atomic writer as a plan over filesystem steps. The caller executes
//! the steps in order; the model here proves that the whole plan leaves the
//! target holding exactly the payload, and that no prefix of the plan ever
//! shows a reader of the target path anything but the prior or the new
//! content.

use vstd::prelude::*;
use crate::paths::{tmp_path_of, tmp_path_for};
use crate::magic::{is_sqlite, sqlite_magic};

verus! {

/// One filesystem step of a plan.
#[derive(Debug)]
pub enum FsStep {
    /// Write a whole file, creating or truncating it.
    WriteFile { path: String, bytes: Vec<u8> },
    /// Rename a file onto a target, replacing the target.
    Rename { from: String, to: String },
    /// Remove a file.
    RemoveFile { path: String },
}

/// The spec-level image of a step.
pub ghost enum FsStepModel {
    Write { path: Seq<char>, bytes: Seq<u8> },
    Move { from: Seq<char>, to: Seq<char> },
    Remove { path: Seq<char> },
}

impl View for FsStep {
    type V = FsStepModel;

    open spec fn view(&self) -> FsStepModel {
        match *self {
            FsStep::WriteFile { path, bytes } => FsStepModel::Write {
                path: path@,
                bytes: bytes@,
            },
            FsStep::Rename { from, to } => FsStepModel::Move { from: from@, to: to@ },
            FsStep::RemoveFile { path } => FsStepModel::Remove { path: path@ },
        }
    }
}

/// A directory's files as a map from path to content.
pub type FsImage = Map<Seq<char>, Seq<u8>>;

/// The effect of one step on a filesystem image. A rename of a missing
/// source leaves the image unchanged; a rename onto an existing target
/// replaces it.
pub open spec fn fs_apply_step(fs: FsImage, s: FsStepModel) -> FsImage {
    match s {
        FsStepModel::Write { path, bytes } => fs.insert(path, bytes),
        FsStepModel::Move { from, to } => if fs.contains_key(from) {
            fs.remove(from).insert(to, fs[from])
        } else {
            fs
        },
        FsStepModel::Remove { path } => fs.remove(path),
    }
}

/// The effect of a sequence of steps, first step first.
pub open spec fn fs_apply_steps(fs: FsImage, ss: Seq<FsStepModel>) -> FsImage
    decreases ss.len(),
{
    if ss.len() == 0 {
        fs
    } else {
        fs_apply_steps(fs_apply_step(fs, ss[0]), ss.drop_first())
    }
}

/// The atomic-write plan for a target and a payload: write the sibling
/// temporary file, then rename it onto the target.
pub open spec fn atomic_write_model(path: Seq<char>, bytes: Seq<u8>) -> Seq<FsStepModel> {
    seq![
        FsStepModel::Write { path: tmp_path_of(path), bytes },
        FsStepModel::Move { from: tmp_path_of(path), to: path },
    ]
}

/// Builds the atomic-write plan for a target path and a payload.
pub fn atomic_write_plan(path: &str, bytes: Vec<u8>) -> (r: Vec<FsStep>)
    ensures
        r@.len() == 2,
        r@[0]@ == atomic_write_model(path@, bytes@)[0],
        r@[1]@ == atomic_write_model(path@, bytes@)[1],
{
    let tmp = tmp_path_for(path);
    let tmp2 = tmp.clone();
    let mut v: Vec<FsStep> = Vec::new();
    v.push(FsStep::WriteFile { path: tmp, bytes });
    v.push(FsStep::Rename { from: tmp2, to: path.to_owned() });
    v
}

/// The temporary path never equals the target path.
pub proof fn lemma_tmp_path_distinct(path: Seq<char>)
    ensures
        tmp_path_of(path) != path,
{
    reveal_strlit(".tmp");
    assert(tmp_path_of(path).len() == path.len() + 4);
}

/// Applying the whole atomic-write plan leaves the target holding exactly
/// the payload; every other path but the temporary sibling is untouched.
pub proof fn lemma_atomic_write_applies(fs: FsImage, path: Seq<char>, bytes: Seq<u8>)
    ensures
        fs_apply_steps(fs, atomic_write_model(path, bytes)) == fs.remove(tmp_path_of(path)).insert(
            path,
            bytes,
        ),
        fs_apply_steps(fs, atomic_write_model(path, bytes))[path] == bytes,
{
    let ss = atomic_write_model(path, bytes);
    let d1 = ss.drop_first();
    let fs1 = fs_apply_step(fs, ss[0]);
    assert(fs1 == fs.insert(tmp_path_of(path), bytes));
    assert(d1[0] == ss[1]);
    assert(d1.drop_first() =~= Seq::<FsStepModel>::empty());
    let fs2 = fs_apply_step(fs1, d1[0]);
    assert(fs1.contains_key(tmp_path_of(path)));
    assert(fs2 == fs1.remove(tmp_path_of(path)).insert(path, fs1[tmp_path_of(path)]));
    assert(fs2 =~= fs.remove(tmp_path_of(path)).insert(path, bytes));
    assert(fs_apply_steps(fs, ss) == fs_apply_steps(fs1, d1));
    assert(fs_apply_steps(fs1, d1) == fs_apply_steps(fs2, d1.drop_first()));
    assert(fs_apply_steps(fs2, d1.drop_first()) == fs2);
}

/// While the plan runs, a reader of the target path sees either the prior
/// content or the new content: after no step and after the temporary write
/// the target is untouched, and after the rename it holds the payload. No
/// temporary content is ever visible at the target path.
pub proof fn lemma_atomic_write_atomic(fs: FsImage, path: Seq<char>, bytes: Seq<u8>, k: int)
    requires
        0 <= k <= 2,
    ensures
        ({
            let m = fs_apply_steps(fs, atomic_write_model(path, bytes).take(k));
            &&& (m.contains_key(path) <==> (k == 2 || fs.contains_key(path)))
            &&& (m.contains_key(path) ==> m[path] == if k == 2 {
                bytes
            } else {
                fs[path]
            })
        }),
{
    lemma_tmp_path_distinct(path);
    let ss = atomic_write_model(path, bytes);
    if k == 0 {
        assert(ss.take(0) =~= Seq::<FsStepModel>::empty());
    } else if k == 1 {
        let t = ss.take(1);
        assert(t[0] == ss[0]);
        assert(t.drop_first() =~= Seq::<FsStepModel>::empty());
        let fs1 = fs_apply_step(fs, t[0]);
        assert(fs1 == fs.insert(tmp_path_of(path), bytes));
        assert(fs_apply_steps(fs, t) == fs_apply_steps(fs1, t.drop_first()));
        assert(fs_apply_steps(fs1, t.drop_first()) == fs1);
    } else {
        assert(ss.take(2) =~= ss);
        lemma_atomic_write_applies(fs, path, bytes);
    }
}

/// A successful atomic save of a valid database leaves the target holding
/// exactly the input bytes, whose first sixteen bytes are the SQLite magic.
pub proof fn lemma_save_applies(fs: FsImage, path: Seq<char>, bytes: Seq<u8>)
    requires
        is_sqlite(bytes),
    ensures
        ({
            let m = fs_apply_steps(fs, atomic_write_model(path, bytes));
            &&& m.contains_key(path)
            &&& m[path] == bytes
            &&& m[path].subrange(0, 16) == sqlite_magic()
        }),
{
    lemma_atomic_write_applies(fs, path, bytes);
}

} // verus!
