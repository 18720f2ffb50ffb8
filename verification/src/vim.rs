//! The editor in which a message is revised by hand.

use vstd::prelude::*;
use vstd::string::*;
use crate::client::reply_view;
use crate::git::status_view;
use crate::text::trimmed;

verus! {

pub const EDIT_FAILED: &'static str = "Failed to edit the message";

/// What a run of the editor comes to: the report where it could not be
/// started, a failure where it reported one, and else what the file holds,
/// without the white space at both ends.
pub open spec fn edit_result(ran: Result<bool, Seq<char>>, contents: Seq<char>) -> Result<
    Seq<char>,
    Seq<char>,
> {
    match ran {
        Err(report) => Err(report),
        Ok(success) => if success {
            Ok(trimmed(contents))
        } else {
            Err(EDIT_FAILED@)
        },
    }
}

/// The editor that revises a message. It holds nothing; running the editor
/// and reading back its file is the caller's part.
#[derive(Debug, Clone, Copy, PartialEq, Eq, Structural)]
pub struct Vim;

impl Vim {
    /// The editor.
    pub fn new() -> (r: Self)
        ensures
            r == Vim,
    {
        Vim
    }

    /// The name of the program that is run on the file.
    pub fn program(&self) -> (r: &'static str)
        ensures
            r@ == "vim"@,
    {
        "vim"
    }

    /// The text a file starts with when `message` is to be revised: the
    /// message itself.
    pub fn initial_contents(&self, message: &str) -> (r: String)
        ensures
            r@ == message@,
    {
        String::from_str(message)
    }

    /// The revised message, given what the file held when the editor closed:
    /// its contents without the white space at both ends.
    pub fn edited_message(&self, contents: &str) -> (r: String)
        ensures
            r@ == trimmed(contents@),
    {
        String::from_str(crate::text::trim(contents))
    }

    /// The revised message, given how the run of the editor ended and what
    /// the file held then: an error where the editor could not be started
    /// or reported a failure, whatever the file holds.
    pub fn edit_outcome(&self, ran: Result<bool, String>, contents: &str) -> (r: Result<String, String>)
        ensures
            reply_view(r) == edit_result(status_view(ran), contents@),
    {
        match ran {
            Err(report) => Err(report),
            Ok(success) => if success {
                Ok(self.edited_message(contents))
            } else {
                Err(String::from_str(EDIT_FAILED))
            },
        }
    }
}

} // verus!
