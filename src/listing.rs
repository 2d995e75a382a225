use vstd::prelude::*;

use crate::error::Error;
use crate::path::{local_of, path_ok, segment_is_ok, segment_ok, Path, PathError};

verus! {

/// A snapshot of one directory entry, taken when it was visited.
#[derive(Debug)]
pub struct FileMeta {
    pub path: Path,
    pub size: u64,
}

/// What the driver of a listing must do next.
#[derive(Debug)]
pub enum ListAction {
    /// Query the size of the entry at this local path.
    QuerySize(String),
    /// Hand this item to the consumer.
    Yield(Result<FileMeta, Error>),
    /// The sequence has ended.
    Finish,
}

/// What the driver observed: the next entry name from the enumeration
/// (`None` for a name that is not valid Unicode), the size of the entry
/// being visited, or the end of the enumeration.
#[derive(Debug)]
pub enum ListEvent {
    Entry(Result<Option<String>, std::io::Error>),
    Size(Result<u64, std::io::Error>),
    End,
}

/// A single-pass walk over one directory. Each entry is resolved back into a
/// virtual path, then sized on its own; the first failure is yielded and
/// ends the walk.
#[derive(Debug)]
pub struct Lister {
    dir: Path,
    pending: Option<Path>,
    done: bool,
}

impl Lister {
    pub closed spec fn dir(&self) -> Seq<Seq<char>> {
        self.dir@
    }

    /// The virtual path of the entry whose size is awaited.
    pub closed spec fn pending(&self) -> Option<Seq<Seq<char>>> {
        match self.pending {
            Some(p) => Some(p@),
            None => None,
        }
    }

    pub closed spec fn done(&self) -> bool {
        self.done
    }

    pub open spec fn wf(&self) -> bool {
        path_ok(self.dir())
    }

    /// The event is one the walk can take now.
    pub open spec fn accepts(&self, ev: ListEvent) -> bool {
        &&& !self.done()
        &&& self.pending() is Some ==> ev is Size
        &&& self.pending() is None ==> !(ev is Size)
    }

    /// A fresh walk over the directory `dir`.
    pub fn new(dir: Path) -> (r: Lister)
        requires
            path_ok(dir@),
        ensures
            r.wf(),
            r.dir() == dir@,
            r.pending() is None,
            !r.done(),
    {
        Lister { dir, pending: None, done: false }
    }

    /// Decides what follows the event.
    pub fn step(&mut self, ev: ListEvent) -> (a: ListAction)
        requires
            old(self).wf(),
            old(self).accepts(ev),
        ensures
            final(self).wf(),
            final(self).dir() == old(self).dir(),
            ev is End ==> final(self).done() && a is Finish,
            ev matches ListEvent::Entry(Err(e)) ==> final(self).done() && a == ListAction::Yield(
                Err(Error::Io(e)),
            ),
            ev matches ListEvent::Entry(Ok(None)) ==> final(self).done() && a == ListAction::Yield(
                Err(Error::Path(PathError { segment: old(self).dir().len() as usize })),
            ),
            ev matches ListEvent::Entry(Ok(Some(name))) ==> {
                if segment_ok(name@) {
                    &&& !final(self).done()
                    &&& final(self).pending() == Some(old(self).dir().push(name@))
                    &&& a is QuerySize
                    &&& a->QuerySize_0@ == local_of(old(self).dir().push(name@))
                } else {
                    &&& final(self).done()
                    &&& a == ListAction::Yield(
                        Err(Error::Path(PathError { segment: old(self).dir().len() as usize })),
                    )
                }
            },
            ev matches ListEvent::Size(Ok(n)) ==> {
                &&& !final(self).done()
                &&& final(self).pending() is None
                &&& a is Yield
                &&& a->Yield_0 is Ok
                &&& a->Yield_0->Ok_0.path@ == old(self).pending()->Some_0
                &&& a->Yield_0->Ok_0.size == n
            },
            ev matches ListEvent::Size(Err(e)) ==> final(self).done() && a == ListAction::Yield(
                Err(Error::Io(e)),
            ),
    {
        match ev {
            ListEvent::End => {
                self.done = true;
                ListAction::Finish
            },
            ListEvent::Entry(Err(e)) | ListEvent::Size(Err(e)) => {
                self.done = true;
                ListAction::Yield(Err(Error::Io(e)))
            },
            ListEvent::Entry(Ok(None)) => {
                self.done = true;
                ListAction::Yield(Err(Error::Path(PathError { segment: self.dir.parts().len() })))
            },
            ListEvent::Entry(Ok(Some(name))) => {
                if !segment_is_ok(&name) {
                    self.done = true;
                    return ListAction::Yield(
                        Err(Error::Path(PathError { segment: self.dir.parts().len() })),
                    );
                }
                let entry = self.dir.child(&name);
                assert(path_ok(entry@)) by {
                    assert forall|i: int| 0 <= i < entry@.len() implies segment_ok(
                        #[trigger] entry@[i],
                    ) by {
                        if i < self.dir@.len() {
                            assert(entry@[i] == self.dir@[i]);
                        }
                    }
                }
                match entry.to_local() {
                    Ok(local) => {
                        self.pending = Some(entry);
                        ListAction::QuerySize(local)
                    },
                    Err(e) => {
                        self.done = true;
                        ListAction::Yield(Err(Error::Path(e)))
                    },
                }
            },
            ListEvent::Size(Ok(n)) => {
                let path = self.pending.take().unwrap();
                ListAction::Yield(Ok(FileMeta { path, size: n }))
            },
        }
    }
}

} // verus!
