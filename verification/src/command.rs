//! Commands that the preprocessor queues for the engine to carry out.

use vstd::prelude::*;

verus! {

/// One pending instruction of the preprocessor.
#[derive(Debug, PartialEq, Eq)]
pub enum Command {
    /// Commit the text to the host.
    CommitText(String),
    /// A deletion that the host has already performed.
    CleanDelete,
    /// Delete the character before the cursor.
    Delete,
    /// Suspend composition.
    Pause,
    /// Resume composition.
    Resume,
}

/// A command with its text as a sequence of characters.
pub enum CommandView {
    CommitText(Seq<char>),
    CleanDelete,
    Delete,
    Pause,
    Resume,
}

impl View for Command {
    type V = CommandView;

    open spec fn view(&self) -> CommandView {
        match self {
            Command::CommitText(text) => CommandView::CommitText(text@),
            Command::CleanDelete => CommandView::CleanDelete,
            Command::Delete => CommandView::Delete,
            Command::Pause => CommandView::Pause,
            Command::Resume => CommandView::Resume,
        }
    }
}

} // verus!
