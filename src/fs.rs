use vstd::prelude::*;

use crate::create::{CreateAction, CreateStage, CreateTask};
use crate::error::Error;
use crate::listing::Lister;
use crate::open::{opens, OpenAction, OpenStage, OpenTask};
use crate::options::OpenOptions;
use crate::path::{first_bad_segment, local_of, path_ok, segment_ok, Path};

verus! {

/// Identifies which storage substrate a filesystem value is backed by.
#[derive(Clone, Copy, Debug, PartialEq, Eq, Structural)]
pub enum FileSystemTag {
    Local,
    Opfs,
    S3,
}

/// The result is the local form of `p`, or the path error that names its
/// first unaddressable segment.
pub open spec fn resolved(p: Seq<Seq<char>>, r: Result<String, Error>) -> bool {
    &&& path_ok(p) ==> r is Ok && r->Ok_0@ == local_of(p)
    &&& !path_ok(p) ==> r is Err && r->Err_0 is Path && first_bad_segment(
        p,
        r->Err_0->Path_0.segment as int,
    )
}

/// The error of a result that failed on the unaddressable path `p`.
pub open spec fn path_failure<T>(p: Seq<Seq<char>>, r: Result<T, Error>) -> bool {
    r is Err && r->Err_0 is Path && first_bad_segment(p, r->Err_0->Path_0.segment as int)
}

/// Maps a virtual path to the local path that every operation addresses.
pub fn resolve(path: &Path) -> (r: Result<String, Error>)
    ensures
        resolved(path@, r),
{
    match path.to_local() {
        Ok(local) => Ok(local),
        Err(e) => Err(Error::Path(e)),
    }
}

proof fn lemma_parent_ok(p: Seq<Seq<char>>)
    requires
        path_ok(p),
        p.len() > 0,
    ensures
        path_ok(p.drop_last()),
{
    assert forall|i: int| 0 <= i < p.drop_last().len() implies segment_ok(
        #[trigger] p.drop_last()[i],
    ) by {
        assert(p.drop_last()[i] == p[i]);
    }
}

/// The local-disk filesystem driven through io_uring completions. Each
/// operation resolves its paths and decides what to submit; the submissions
/// themselves are made by whoever drives the returned task.
pub struct TokioUringFs;

impl TokioUringFs {
    /// This backend always serves the local disk.
    pub fn file_system(&self) -> (r: FileSystemTag)
        ensures
            r == FileSystemTag::Local,
    {
        FileSystemTag::Local
    }

    /// Starts opening `path`. With `create` set, the first step asks whether a
    /// file is already there, so that a missing one (and its parents) can be
    /// created before the open; otherwise the open is submitted at once.
    pub fn open_options(&self, path: &Path, options: OpenOptions) -> (r: Result<
        (OpenTask, OpenAction),
        Error,
    >)
        ensures
            !path_ok(path@) ==> path_failure(path@, r),
            path_ok(path@) ==> {
                &&& r is Ok
                &&& r->Ok_0.0.local() == local_of(path@)
                &&& r->Ok_0.0.options() == options
                &&& options.create ==> r->Ok_0.0.stage() == OpenStage::Probing && r->Ok_0.1
                    is Probe && r->Ok_0.1->Probe_0@ == local_of(path@)
                &&& !options.create ==> r->Ok_0.0.stage() == OpenStage::Opening && opens(
                    r->Ok_0.1,
                    local_of(path@),
                    options,
                )
            },
    {
        let local = resolve(path)?;
        Ok(OpenTask::begin(local, options))
    }

    /// Starts creating an empty file at `path`: the parent directory chain
    /// first, when the path has a parent, then the file.
    pub fn create_file(&self, path: &Path) -> (r: Result<(CreateTask, CreateAction), Error>)
        ensures
            !path_ok(path@) ==> path_failure(path@, r),
            path_ok(path@) ==> {
                &&& r is Ok
                &&& r->Ok_0.0.local() == local_of(path@)
                &&& path@.len() > 0 ==> r->Ok_0.0.stage() == CreateStage::MakingDirs && r->Ok_0.1
                    is CreateDirAll && r->Ok_0.1->CreateDirAll_0@ == local_of(path@.drop_last())
                &&& path@.len() == 0 ==> r->Ok_0.0.stage() == CreateStage::MakingFile
                    && r->Ok_0.1 is CreateFile && r->Ok_0.1->CreateFile_0@ == local_of(path@)
            },
    {
        let local = resolve(path)?;
        let parent = match path.parent() {
            Some(dir) => {
                proof {
                    lemma_parent_ok(path@);
                }
                Some(resolve(&dir)?)
            },
            None => None,
        };
        Ok(CreateTask::begin(local, parent))
    }

    /// The local directory to create, with every missing ancestor.
    pub fn create_dir_all(path: &Path) -> (r: Result<String, Error>)
        ensures
            resolved(path@, r),
    {
        resolve(path)
    }

    /// Starts a walk over the directory `path`; also gives the local
    /// directory to enumerate.
    pub fn list(&self, path: &Path) -> (r: Result<(Lister, String), Error>)
        ensures
            !path_ok(path@) ==> path_failure(path@, r),
            path_ok(path@) ==> {
                &&& r is Ok
                &&& r->Ok_0.0.wf()
                &&& r->Ok_0.0.dir() == path@
                &&& r->Ok_0.0.pending() is None
                &&& !r->Ok_0.0.done()
                &&& r->Ok_0.1@ == local_of(path@)
            },
    {
        let local = resolve(path)?;
        Ok((Lister::new(path.clone()), local))
    }

    /// The local file to unlink.
    pub fn remove(&self, path: &Path) -> (r: Result<String, Error>)
        ensures
            resolved(path@, r),
    {
        resolve(path)
    }

    /// The local source and destination of a byte copy; the source is
    /// resolved first.
    pub fn copy(&self, from: &Path, to: &Path) -> (r: Result<(String, String), Error>)
        ensures
            !path_ok(from@) ==> path_failure(from@, r),
            path_ok(from@) && !path_ok(to@) ==> path_failure(to@, r),
            path_ok(from@) && path_ok(to@) ==> r is Ok && r->Ok_0.0@ == local_of(from@)
                && r->Ok_0.1@ == local_of(to@),
    {
        let from = resolve(from)?;
        let to = resolve(to)?;
        Ok((from, to))
    }

    /// The local existing entry and new name of a hard link; the existing
    /// entry is resolved first.
    pub fn link(&self, from: &Path, to: &Path) -> (r: Result<(String, String), Error>)
        ensures
            !path_ok(from@) ==> path_failure(from@, r),
            path_ok(from@) && !path_ok(to@) ==> path_failure(to@, r),
            path_ok(from@) && path_ok(to@) ==> r is Ok && r->Ok_0.0@ == local_of(from@)
                && r->Ok_0.1@ == local_of(to@),
    {
        let from = resolve(from)?;
        let to = resolve(to)?;
        Ok((from, to))
    }
}

} // verus!
