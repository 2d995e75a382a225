use vstd::prelude::*;

use crate::error::Error;
use crate::options::OpenOptions;
use crate::path::copy_string;

verus! {

/// Where an open request stands.
#[derive(Clone, Copy, Debug, PartialEq, Eq, Structural)]
pub enum OpenStage {
    /// Waiting to learn whether a file is already at the local path.
    Probing,
    /// Waiting for the file and its parent directories to be created.
    Creating,
    /// Waiting for the open submission to complete.
    Opening,
    /// Waiting for the size of the opened file.
    Stating,
    /// The request has ended; no further event is expected.
    Finished,
}

/// What the driver of an open request must do next.
#[derive(Debug)]
pub enum OpenAction {
    /// Report whether anything exists at this local path.
    Probe(String),
    /// Create the file, and its missing parent directories, at the virtual path.
    CreateFile,
    /// Submit an open of this local path with these flags.
    Open(String, OpenOptions),
    /// Query the size of the file that was just opened.
    Stat,
    /// Hand out the opened file with its cursor at this byte offset.
    Ready(u64),
    /// Give up with this error.
    Fail(Error),
}

/// What the driver observed after performing an action.
#[derive(Debug)]
pub enum OpenEvent {
    Exists(bool),
    Created(Result<(), Error>),
    Opened(Result<(), std::io::Error>),
    Stated(Result<u64, std::io::Error>),
}

/// The action is an open of `local` with exactly the flags `o`.
pub open spec fn opens(a: OpenAction, local: Seq<char>, o: OpenOptions) -> bool {
    a is Open && a->Open_0@ == local && a->Open_1 == o
}

/// An open request in progress: the decisions of opening a file, apart from
/// the submissions themselves.
#[derive(Debug)]
pub struct OpenTask {
    local: String,
    options: OpenOptions,
    stage: OpenStage,
}

impl OpenTask {
    pub closed spec fn local(&self) -> Seq<char> {
        self.local@
    }

    pub closed spec fn options(&self) -> OpenOptions {
        self.options
    }

    pub closed spec fn stage(&self) -> OpenStage {
        self.stage
    }

    /// The event is the one the current stage waits for.
    pub open spec fn accepts(&self, ev: OpenEvent) -> bool {
        match self.stage() {
            OpenStage::Probing => ev is Exists,
            OpenStage::Creating => ev is Created,
            OpenStage::Opening => ev is Opened,
            OpenStage::Stating => ev is Stated,
            OpenStage::Finished => false,
        }
    }

    /// Starts a request on an already resolved local path. Only a request that
    /// may create the file asks first whether it exists.
    pub fn begin(local: String, options: OpenOptions) -> (r: (OpenTask, OpenAction))
        ensures
            r.0.local() == local@,
            r.0.options() == options,
            options.create ==> r.0.stage() == OpenStage::Probing && r.1 is Probe
                && r.1->Probe_0@ == local@,
            !options.create ==> r.0.stage() == OpenStage::Opening && opens(r.1, local@, options),
    {
        if options.create {
            let probe = copy_string(&local);
            (OpenTask { local, options, stage: OpenStage::Probing }, OpenAction::Probe(probe))
        } else {
            let target = copy_string(&local);
            (
                OpenTask { local, options, stage: OpenStage::Opening },
                OpenAction::Open(target, options),
            )
        }
    }

    /// Decides the next action from the event the current stage waited for.
    /// A missing file is created before the open; any failure ends the request
    /// with that failure unchanged; the cursor starts at the reported size.
    pub fn step(&mut self, ev: OpenEvent) -> (a: OpenAction)
        requires
            old(self).accepts(ev),
        ensures
            final(self).local() == old(self).local(),
            final(self).options() == old(self).options(),
            ev == OpenEvent::Exists(true) ==> final(self).stage() == OpenStage::Opening && opens(
                a,
                old(self).local(),
                old(self).options(),
            ),
            ev == OpenEvent::Exists(false) ==> final(self).stage() == OpenStage::Creating && a
                is CreateFile,
            ev matches OpenEvent::Created(Ok(_)) ==> final(self).stage() == OpenStage::Opening
                && opens(a, old(self).local(), old(self).options()),
            ev matches OpenEvent::Created(Err(e)) ==> final(self).stage() == OpenStage::Finished
                && a == OpenAction::Fail(e),
            ev matches OpenEvent::Opened(Ok(_)) ==> final(self).stage() == OpenStage::Stating && a
                is Stat,
            ev matches OpenEvent::Opened(Err(e)) ==> final(self).stage() == OpenStage::Finished
                && a == OpenAction::Fail(Error::Io(e)),
            ev matches OpenEvent::Stated(Ok(n)) ==> final(self).stage() == OpenStage::Finished
                && a == OpenAction::Ready(n),
            ev matches OpenEvent::Stated(Err(e)) ==> final(self).stage() == OpenStage::Finished
                && a == OpenAction::Fail(Error::Io(e)),
    {
        match ev {
            OpenEvent::Exists(true) | OpenEvent::Created(Ok(_)) => {
                self.stage = OpenStage::Opening;
                OpenAction::Open(copy_string(&self.local), self.options)
            },
            OpenEvent::Exists(false) => {
                self.stage = OpenStage::Creating;
                OpenAction::CreateFile
            },
            OpenEvent::Created(Err(e)) => {
                self.stage = OpenStage::Finished;
                OpenAction::Fail(e)
            },
            OpenEvent::Opened(Ok(_)) => {
                self.stage = OpenStage::Stating;
                OpenAction::Stat
            },
            OpenEvent::Opened(Err(e)) | OpenEvent::Stated(Err(e)) => {
                self.stage = OpenStage::Finished;
                OpenAction::Fail(Error::Io(e))
            },
            OpenEvent::Stated(Ok(n)) => {
                self.stage = OpenStage::Finished;
                OpenAction::Ready(n)
            },
        }
    }
}

} // verus!
