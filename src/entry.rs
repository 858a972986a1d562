//! Entries of a feed, as they are reported.

use vstd::prelude::*;
use crate::timestamp::{check_created_secs, timestamp_failure, TimestampError};

verus! {

/// The origin that entries' relative paths are joined to.
pub open spec fn origin() -> Seq<char> {
    "https://www.reddit.com"@
}

/// The title shown for an entry whose source gives none.
pub open spec fn untitled() -> Seq<char> {
    "(untitled)"@
}

/// One item of a feed.
#[derive(Debug)]
pub struct Entry {
    /// The stable key of the item; the only key used to tell items apart.
    pub identity: String,
    pub title: String,
    /// Creation time in whole seconds since the Unix epoch, as the source gave it.
    pub created_secs: i64,
    /// The origin joined with the item's relative path.
    pub target_url: String,
}

impl Entry {
    /// Builds an entry from the fields a source gives for one item.
    pub fn new(identity: String, title: Option<String>, created_secs: i64, permalink: &str) -> (r: Entry)
        ensures
            r.identity@ == identity@,
            r.title@ == (match title {
                Some(t) => t@,
                None => untitled(),
            }),
            r.created_secs == created_secs,
            r.target_url@ == origin() + permalink@,
    {
        let title = match title {
            Some(t) => t,
            None => String::from_str("(untitled)"),
        };
        let mut target_url = String::from_str("https://www.reddit.com");
        target_url.append(permalink);
        Entry { identity, title, created_secs, target_url }
    }

    /// The entry's creation time in seconds since the epoch, when it can be shown
    /// as a calendar date; else why it cannot. A failure here concerns this entry
    /// alone.
    pub fn created_datetime(&self) -> (r: Result<i64, TimestampError>)
        ensures
            r == (match timestamp_failure(self.created_secs as int) {
                None => Ok::<i64, TimestampError>(self.created_secs),
                Some(e) => Err(e),
            }),
    {
        check_created_secs(self.created_secs)
    }
}

} // verus!
