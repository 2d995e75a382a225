use vstd::prelude::*;

use crate::error::Error;
use crate::path::copy_string;

verus! {

/// Where a file creation stands.
#[derive(Clone, Copy, Debug, PartialEq, Eq, Structural)]
pub enum CreateStage {
    /// Waiting for the parent directory chain to exist.
    MakingDirs,
    /// Waiting for the empty file to be created.
    MakingFile,
    /// The request has ended; no further event is expected.
    Finished,
}

/// What the driver of a file creation must do next.
#[derive(Debug)]
pub enum CreateAction {
    /// Create this local directory and every missing ancestor of it.
    CreateDirAll(String),
    /// Create an empty file at this local path.
    CreateFile(String),
    /// The file was created.
    Done,
    /// Give up with this error.
    Fail(Error),
}

/// What the driver observed after performing an action.
#[derive(Debug)]
pub enum CreateEvent {
    DirsCreated(Result<(), std::io::Error>),
    FileCreated(Result<(), std::io::Error>),
}

/// A file creation in progress: parents first, then the file itself.
#[derive(Debug)]
pub struct CreateTask {
    local: String,
    stage: CreateStage,
}

impl CreateTask {
    pub closed spec fn local(&self) -> Seq<char> {
        self.local@
    }

    pub closed spec fn stage(&self) -> CreateStage {
        self.stage
    }

    /// The event is the one the current stage waits for.
    pub open spec fn accepts(&self, ev: CreateEvent) -> bool {
        match self.stage() {
            CreateStage::MakingDirs => ev is DirsCreated,
            CreateStage::MakingFile => ev is FileCreated,
            CreateStage::Finished => false,
        }
    }

    /// Starts the creation of the file at `local`, under the directory
    /// `parent` when there is one.
    pub fn begin(local: String, parent: Option<String>) -> (r: (CreateTask, CreateAction))
        ensures
            r.0.local() == local@,
            parent is Some ==> r.0.stage() == CreateStage::MakingDirs && r.1 is CreateDirAll
                && r.1->CreateDirAll_0@ == parent->Some_0@,
            parent is None ==> r.0.stage() == CreateStage::MakingFile && r.1 is CreateFile
                && r.1->CreateFile_0@ == local@,
    {
        match parent {
            Some(dir) => (
                CreateTask { local, stage: CreateStage::MakingDirs },
                CreateAction::CreateDirAll(dir),
            ),
            None => {
                let target = copy_string(&local);
                (CreateTask { local, stage: CreateStage::MakingFile }, CreateAction::CreateFile(target))
            },
        }
    }

    /// Decides the next action from the event the current stage waited for.
    pub fn step(&mut self, ev: CreateEvent) -> (a: CreateAction)
        requires
            old(self).accepts(ev),
        ensures
            final(self).local() == old(self).local(),
            ev matches CreateEvent::DirsCreated(Ok(_)) ==> final(self).stage()
                == CreateStage::MakingFile && a is CreateFile && a->CreateFile_0@ == old(self).local(),
            ev matches CreateEvent::FileCreated(Ok(_)) ==> final(self).stage()
                == CreateStage::Finished && a is Done,
            ev matches CreateEvent::DirsCreated(Err(e)) ==> final(self).stage()
                == CreateStage::Finished && a == CreateAction::Fail(Error::Io(e)),
            ev matches CreateEvent::FileCreated(Err(e)) ==> final(self).stage()
                == CreateStage::Finished && a == CreateAction::Fail(Error::Io(e)),
    {
        match ev {
            CreateEvent::DirsCreated(Ok(_)) => {
                self.stage = CreateStage::MakingFile;
                CreateAction::CreateFile(copy_string(&self.local))
            },
            CreateEvent::FileCreated(Ok(_)) => {
                self.stage = CreateStage::Finished;
                CreateAction::Done
            },
            CreateEvent::DirsCreated(Err(e)) | CreateEvent::FileCreated(Err(e)) => {
                self.stage = CreateStage::Finished;
                CreateAction::Fail(Error::Io(e))
            },
        }
    }
}

} // verus!
