//! The operating system family whose conventions a decision follows.

use vstd::prelude::*;

verus! {

/// The operating system family the application runs on.
#[derive(Clone, Copy, Debug, PartialEq, Eq, Structural)]
pub enum Platform {
    Windows,
    MacOs,
    Linux,
    /// The Unix systems other than macOS and Linux.
    OtherUnix,
    /// Any system that is neither Windows nor Unix.
    Other,
}

} // verus!

verus! {

/// A filesystem path written as a base followed by components to join onto
/// it, one after the other, with the platform's separator.
#[derive(Debug)]
pub struct JoinedPath {
    pub base: String,
    pub tail: Vec<String>,
}

impl View for JoinedPath {
    type V = (Seq<char>, Seq<Seq<char>>);

    open spec fn view(&self) -> (Seq<char>, Seq<Seq<char>>) {
        (self.base@, self.tail.deep_view())
    }
}

/// The views of a sequence of paths.
pub open spec fn paths_view(paths: Seq<JoinedPath>) -> Seq<(Seq<char>, Seq<Seq<char>>)> {
    paths.map_values(|p: JoinedPath| p@)
}

/// The views of a sequence of string slices.
pub open spec fn strs_view(items: Seq<&str>) -> Seq<Seq<char>> {
    items.map_values(|s: &str| s@)
}

} // verus!
