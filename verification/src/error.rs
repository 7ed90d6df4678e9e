//! Errors, and what the process-wide error sink is told about them.

use vstd::prelude::*;

verus! {

/// What can go wrong around the routing core. The routing core itself only
/// passes failures on; the payloads are the messages of the failures that
/// the driver met.
#[derive(Debug, PartialEq, Eq)]
pub enum Error {
    /// A panel was asked for by an index or identity that is not there.
    BadIndex,
    /// A handle was used after the object it stands for was destroyed.
    ActorGone,
    /// A task could not be started.
    Spawn(String),
    /// Input or output failed.
    StdIO(String),
    /// The rendering backend refused a request.
    Windows { code: i32, message: String },
}

impl Error {
    /// The text that describes this error to a person.
    pub open spec fn description(self) -> Seq<char> {
        match self {
            Error::BadIndex => "Bad element index"@,
            Error::ActorGone => "Object is gone"@,
            Error::Spawn(message) => message@,
            Error::StdIO(message) => message@,
            Error::Windows { code, message } => message@,
        }
    }
}

/// Turns an error that nobody recovered from into the report for the
/// process-wide error sink. Whether the process then logs, aborts or goes on
/// is the sink's decision, not this function's.
pub fn on_err(e: Error) -> (report: String)
    ensures
        report@ == e.description(),
{
    match e {
        Error::BadIndex => "Bad element index".to_owned(),
        Error::ActorGone => "Object is gone".to_owned(),
        Error::Spawn(message) => message,
        Error::StdIO(message) => message,
        Error::Windows { code, message } => message,
    }
}

} // verus!
