//! The closed set of things that can go wrong during a scan, and what the
//! scan does about each.

use vstd::prelude::*;

verus! {

/// Every failure the scan knows.
#[derive(Clone, Copy, Debug, PartialEq, Eq, Structural)]
pub enum WalkError {
    /// The metadata of one entry could not be read.
    MetadataUnreadable,
    /// A directory could not be listed.
    DirectoryUnreadable,
    /// One entry of a listing failed while being read.
    EntryEnumeration,
    /// A record was sent after the collector had gone.
    SendFailure,
    /// One record could not be written to the output.
    Serialization,
    /// The output could not be opened before the scan began.
    SinkOpen,
}

/// What follows a failure.
#[derive(Clone, Copy, Debug, PartialEq, Eq, Structural)]
pub enum Handling {
    /// Leave out that one entry; its siblings go on.
    SkipEntry,
    /// Give up the directory and all below it; siblings and ancestors go on.
    AbandonSubtree,
    /// End the piece of work that failed; all others go on.
    EndTask,
    /// Lose that one record; the collector keeps draining.
    KeepDraining,
    /// Stop before any scanning starts.
    Abort,
}

/// The handling laid down for each kind of failure.
pub open spec fn handling_of(error: WalkError) -> Handling {
    match error {
        WalkError::MetadataUnreadable => Handling::SkipEntry,
        WalkError::DirectoryUnreadable => Handling::AbandonSubtree,
        WalkError::EntryEnumeration => Handling::SkipEntry,
        WalkError::SendFailure => Handling::EndTask,
        WalkError::Serialization => Handling::KeepDraining,
        WalkError::SinkOpen => Handling::Abort,
    }
}

impl WalkError {
    /// How the scan reacts to this failure.
    pub fn handling(&self) -> (h: Handling)
        ensures
            h == handling_of(*self),
    {
        match self {
            WalkError::MetadataUnreadable => Handling::SkipEntry,
            WalkError::DirectoryUnreadable => Handling::AbandonSubtree,
            WalkError::EntryEnumeration => Handling::SkipEntry,
            WalkError::SendFailure => Handling::EndTask,
            WalkError::Serialization => Handling::KeepDraining,
            WalkError::SinkOpen => Handling::Abort,
        }
    }

    /// Whether the whole run ends on this failure. Only a sink that cannot
    /// be opened is fatal.
    pub fn is_fatal(&self) -> (fatal: bool)
        ensures
            fatal == (handling_of(*self) == Handling::Abort),
            fatal == (*self == WalkError::SinkOpen),
    {
        match self {
            WalkError::SinkOpen => true,
            _ => false,
        }
    }

    /// A short description for a diagnostic line.
    pub fn describe(&self) -> (text: &'static str)
        ensures
            text@ == description_of(*self),
    {
        match self {
            WalkError::MetadataUnreadable => "metadata unreadable",
            WalkError::DirectoryUnreadable => "directory unreadable",
            WalkError::EntryEnumeration => "entry enumeration error",
            WalkError::SendFailure => "send failure",
            WalkError::Serialization => "serialization failure",
            WalkError::SinkOpen => "sink open failure",
        }
    }
}

/// The text that `describe` gives for each failure.
pub open spec fn description_of(error: WalkError) -> Seq<char> {
    match error {
        WalkError::MetadataUnreadable => "metadata unreadable"@,
        WalkError::DirectoryUnreadable => "directory unreadable"@,
        WalkError::EntryEnumeration => "entry enumeration error"@,
        WalkError::SendFailure => "send failure"@,
        WalkError::Serialization => "serialization failure"@,
        WalkError::SinkOpen => "sink open failure"@,
    }
}

} // verus!
