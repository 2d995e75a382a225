use vstd::prelude::*;

verus! {

/// How a file is to be opened; every flag is set independently.
#[derive(Clone, Copy, Debug, PartialEq, Eq, Structural)]
pub struct OpenOptions {
    pub read: bool,
    pub write: bool,
    pub create: bool,
    pub truncate: bool,
}

impl Default for OpenOptions {
    /// Read-only, on a file that must already exist.
    fn default() -> (r: OpenOptions)
        ensures
            r == (OpenOptions { read: true, write: false, create: false, truncate: false }),
    {
        OpenOptions { read: true, write: false, create: false, truncate: false }
    }
}

impl OpenOptions {
    /// The same options with `read` set as given.
    pub fn read(self, read: bool) -> (r: OpenOptions)
        ensures
            r == (OpenOptions { read, ..self }),
    {
        OpenOptions { read, ..self }
    }

    /// The same options with `write` set as given.
    pub fn write(self, write: bool) -> (r: OpenOptions)
        ensures
            r == (OpenOptions { write, ..self }),
    {
        OpenOptions { write, ..self }
    }

    /// The same options with `create` set as given.
    pub fn create(self, create: bool) -> (r: OpenOptions)
        ensures
            r == (OpenOptions { create, ..self }),
    {
        OpenOptions { create, ..self }
    }

    /// The same options with `truncate` set as given.
    pub fn truncate(self, truncate: bool) -> (r: OpenOptions)
        ensures
            r == (OpenOptions { truncate, ..self }),
    {
        OpenOptions { truncate, ..self }
    }
}

} // verus!
