//! The decisions of the directory creation loop: what to do after each
//! stat or create observation, with the one-retry rule for the race
//! where a concurrent task creates the same directory first.

use vstd::prelude::*;

verus! {

/// What a stat or create call on one ancestor directory observed.
pub enum DirEvent {
    /// The path does not exist.
    StatMissing,
    /// The path exists and is a directory.
    StatIsDir,
    /// The path exists but is not a directory.
    StatIsOther,
    /// The stat itself failed.
    StatFailed,
    /// The directory was created.
    Created,
    /// Creating the directory failed.
    CreateFailed,
}

/// The next step of the directory creation loop.
pub enum DirStep {
    /// The directory exists; move on.
    Done,
    /// The path is missing; try to create it.
    TryCreate,
    /// The create lost a race; stat the path once more.
    RetryStat,
    /// The path exists and is not a directory; the message names it.
    FailNotDirectory(String),
    /// A filesystem failure; the caller reports its own error.
    FailIo,
}

/// The message for a path that exists but is not a directory.
pub open spec fn not_directory_view(path: Seq<char>) -> Seq<char> {
    path + " already exists and is not a directory"@
}

/// Decides the next step of the directory creation loop for one
/// observation. A failed create is answered with one more stat — a
/// concurrent task may have created the directory first — and only a
/// second failure is fatal.
pub fn dir_step(event: &DirEvent, retried: bool, path: &str) -> (r: DirStep)
    ensures
        match event {
            DirEvent::StatMissing => r matches DirStep::TryCreate,
            DirEvent::StatIsDir => r matches DirStep::Done,
            DirEvent::StatIsOther => r matches DirStep::FailNotDirectory(m) && m@
                == not_directory_view(path@),
            DirEvent::StatFailed => r matches DirStep::FailIo,
            DirEvent::Created => r matches DirStep::Done,
            DirEvent::CreateFailed => if retried {
                r matches DirStep::FailIo
            } else {
                r matches DirStep::RetryStat
            },
        },
{
    match event {
        DirEvent::StatMissing => DirStep::TryCreate,
        DirEvent::StatIsDir => DirStep::Done,
        DirEvent::StatIsOther => DirStep::FailNotDirectory(
            path.to_owned().concat(" already exists and is not a directory"),
        ),
        DirEvent::StatFailed => DirStep::FailIo,
        DirEvent::Created => DirStep::Done,
        DirEvent::CreateFailed => if retried {
            DirStep::FailIo
        } else {
            DirStep::RetryStat
        },
    }
}

} // verus!
