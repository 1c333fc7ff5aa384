//! The failures that the outside work can report. Each holds the message that
//! is shown to the user; none of them ends the process.

use vstd::prelude::*;

verus! {

/// A probe of the installation could not be made. That a prerequisite is
/// absent is no such failure.
#[derive(Debug, PartialEq, Eq)]
pub struct ResolutionError {
    pub message: String,
}

/// One attempt to reach one mirror failed.
#[derive(Debug, PartialEq, Eq)]
pub struct SyncError {
    pub message: String,
}

/// The configuration could not be loaded or written back.
#[derive(Debug, PartialEq, Eq)]
pub struct ConfigError {
    pub message: String,
}

/// An action that was handed out failed.
#[derive(Debug, PartialEq, Eq)]
pub struct ActionError {
    pub message: String,
}

impl View for ResolutionError {
    type V = Seq<char>;

    open spec fn view(&self) -> Seq<char> {
        self.message@
    }
}

impl DeepView for ResolutionError {
    type V = Seq<char>;

    open spec fn deep_view(&self) -> Seq<char> {
        self@
    }
}

impl Clone for ResolutionError {
    fn clone(&self) -> (copy: Self)
        ensures
            copy@ == self@,
    {
        ResolutionError { message: self.message.clone() }
    }
}

impl View for SyncError {
    type V = Seq<char>;

    open spec fn view(&self) -> Seq<char> {
        self.message@
    }
}

impl DeepView for SyncError {
    type V = Seq<char>;

    open spec fn deep_view(&self) -> Seq<char> {
        self@
    }
}

impl Clone for SyncError {
    fn clone(&self) -> (copy: Self)
        ensures
            copy@ == self@,
    {
        SyncError { message: self.message.clone() }
    }
}

impl View for ConfigError {
    type V = Seq<char>;

    open spec fn view(&self) -> Seq<char> {
        self.message@
    }
}

impl DeepView for ConfigError {
    type V = Seq<char>;

    open spec fn deep_view(&self) -> Seq<char> {
        self@
    }
}

impl Clone for ConfigError {
    fn clone(&self) -> (copy: Self)
        ensures
            copy@ == self@,
    {
        ConfigError { message: self.message.clone() }
    }
}

impl View for ActionError {
    type V = Seq<char>;

    open spec fn view(&self) -> Seq<char> {
        self.message@
    }
}

impl DeepView for ActionError {
    type V = Seq<char>;

    open spec fn deep_view(&self) -> Seq<char> {
        self@
    }
}

impl Clone for ActionError {
    fn clone(&self) -> (copy: Self)
        ensures
            copy@ == self@,
    {
        ActionError { message: self.message.clone() }
    }
}

} // verus!
