//! What the caller, who does the file and network work, reports back.

use vstd::prelude::*;

verus! {

/// The report on one action. `T` is the type of text: of a failure, or of a
/// name the work produced.
#[derive(Debug, PartialEq, Eq)]
pub enum Reply<T> {
    /// The answer to a question whether a file exists.
    Probed(bool),
    /// How a download, a copy, a deletion or the making of a folder went.
    Finished(Result<(), T>),
    /// The length of a file in bytes, or why it could not be read.
    Measured(Result<u64, T>),
    /// The id the remote store gave to an upload, or why the upload failed.
    Uploaded(Result<T, T>),
}

impl View for Reply<String> {
    type V = Reply<Seq<char>>;

    open spec fn view(&self) -> Reply<Seq<char>> {
        match *self {
            Reply::Probed(found) => Reply::Probed(found),
            Reply::Finished(Ok(_)) => Reply::Finished(Ok(())),
            Reply::Finished(Err(why)) => Reply::Finished(Err(why@)),
            Reply::Measured(Ok(size)) => Reply::Measured(Ok(size)),
            Reply::Measured(Err(why)) => Reply::Measured(Err(why@)),
            Reply::Uploaded(Ok(id)) => Reply::Uploaded(Ok(id@)),
            Reply::Uploaded(Err(why)) => Reply::Uploaded(Err(why@)),
        }
    }
}

} // verus!
