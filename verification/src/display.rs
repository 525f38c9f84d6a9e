//! Items as the consumer's display list holds them.
//!
//! The rendering loop itself lives outside the library; it keeps a list of
//! these items and appends one for every story it receives.

use vstd::prelude::*;

use crate::story::HnStory;

verus! {

/// Whether the consumer has opened an item yet.
#[derive(Debug, Clone, Copy, PartialEq, Eq, Structural)]
pub enum Status {
    Unread,
    Read,
}

/// One row of the consumer's display list.
#[derive(Debug)]
pub struct DisplayListItem {
    pub title: String,
    pub details: String,
    pub status: Status,
}

impl DisplayListItem {
    pub fn new(status: Status, title: &str, details: &str) -> (r: Self)
        ensures
            r.status == status,
            r.title@ == title@,
            r.details@ == details@,
    {
        DisplayListItem { status, title: title.to_owned(), details: details.to_owned() }
    }

    /// The row shown for a newly delivered story: unread, titled after the
    /// story, with its details still to come.
    pub fn from_hnstory(story: HnStory) -> (r: Self)
        ensures
            r.status == Status::Unread,
            r.title@ == story.title@,
            r.details@ == "Tobe filled in later"@,
    {
        DisplayListItem {
            status: Status::Unread,
            title: story.title,
            details: "Tobe filled in later".to_owned(),
        }
    }
}

} // verus!
