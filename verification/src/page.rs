//! The record of a page that the crawl is done with.

use vstd::prelude::*;

verus! {

/// Why a page could not be had.
#[derive(Debug, Clone, Copy, PartialEq, Eq, Structural)]
pub enum ErrorKind {
    /// The network failed.
    Network,
    /// The request or the navigation ran out of time.
    Timeout,
    /// The browser session was gone.
    SessionClosed,
}

/// How the fetch or the rendering of a page ended.
#[derive(Debug, Clone, PartialEq, Eq)]
pub enum Outcome {
    /// The page was had.
    Success {
        /// The status that the server answered with.
        status: u16,
        /// The content of the page.
        content: Vec<u8>,
    },
    /// The page was not had.
    Failure(ErrorKind),
}

/// The record of a page.
#[derive(Debug, Clone, PartialEq, Eq)]
pub struct PageRecord {
    /// The link of the page.
    pub url: String,
    /// How the fetch or the rendering ended.
    pub outcome: Outcome,
    /// The links that were found on the page.
    pub links: Vec<String>,
    /// The time that the page took, in milliseconds.
    pub elapsed_ms: u64,
}

impl PageRecord {
    /// The record of a page that was had.
    pub fn success(
        url: String,
        status: u16,
        content: Vec<u8>,
        links: Vec<String>,
        elapsed_ms: u64,
    ) -> (r: Self)
        ensures
            r.url == url,
            r.outcome == (Outcome::Success { status, content }),
            r.links == links,
            r.elapsed_ms == elapsed_ms,
    {
        PageRecord { url, outcome: Outcome::Success { status, content }, links, elapsed_ms }
    }

    /// The record of a page that was not had. Such a page has no links.
    pub fn failure(url: String, kind: ErrorKind, elapsed_ms: u64) -> (r: Self)
        ensures
            r.url == url,
            r.outcome == Outcome::Failure(kind),
            r.links@ == Seq::<String>::empty(),
            r.elapsed_ms == elapsed_ms,
    {
        PageRecord { url, outcome: Outcome::Failure(kind), links: Vec::new(), elapsed_ms }
    }

    /// Whether the page was had.
    pub fn is_success(&self) -> (r: bool)
        ensures
            r == (self.outcome is Success),
    {
        match self.outcome {
            Outcome::Success { .. } => true,
            Outcome::Failure(_) => false,
        }
    }
}

} // verus!
