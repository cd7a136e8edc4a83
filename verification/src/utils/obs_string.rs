//! Text and paths in the form in which they are handed to the engine.

use crate::utils::path::{join_path, path_join};
use vstd::prelude::*;
use vstd::string::*;

verus! {

/// A piece of text that is handed to the engine.
#[derive(Clone, Debug)]
pub struct ObsString {
    text: String,
}

impl View for ObsString {
    type V = Seq<char>;

    closed spec fn view(&self) -> Seq<char> {
        self.text@
    }
}

impl ObsString {
    /// The engine's copy of `text`.
    pub fn new(text: &str) -> (s: ObsString)
        ensures
            s@ == text@,
    {
        ObsString { text: text.to_string() }
    }

    /// The text.
    pub fn as_str(&self) -> (text: &str)
        ensures
            text@ == self@,
    {
        self.text.as_str()
    }

    /// Whether two strings hold the same text.
    pub fn same_text(&self, other: &ObsString) -> (same: bool)
        ensures
            same == (self@ == other@),
    {
        self.text == other.text
    }
}

/// A path that is being put together before it is handed to the engine.
#[derive(Clone, Debug)]
pub struct ObsPath {
    path: String,
}

impl View for ObsPath {
    type V = Seq<char>;

    closed spec fn view(&self) -> Seq<char> {
        self.path@
    }
}

impl ObsPath {
    /// The path written `path`.
    pub fn new(path: &str) -> (p: ObsPath)
        ensures
            p@ == path@,
    {
        ObsPath { path: path.to_string() }
    }

    /// The path with `part` adjoined.
    pub fn push(self, part: &str) -> (p: ObsPath)
        ensures
            p@ == path_join(self@, part@),
    {
        ObsPath { path: join_path(self.path.as_str(), part) }
    }

    /// The path as the engine takes it.
    pub fn build(self) -> (s: ObsString)
        ensures
            s@ == self@,
    {
        ObsString { text: self.path }
    }
}

} // verus!
