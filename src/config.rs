//! The poll configuration, read from positional arguments, and the URL it asks for.

use vstd::prelude::*;

verus! {

/// The order in which the source lists a feed.
#[derive(Debug, Clone, Copy, PartialEq, Eq, Structural)]
pub enum SortMode {
    Hot,
    New,
    Top,
    Rising,
    Controversial,
}

/// The name of a sort mode, as it stands in a request URL.
pub open spec fn sort_name(m: SortMode) -> Seq<char> {
    match m {
        SortMode::Hot => "hot"@,
        SortMode::New => "new"@,
        SortMode::Top => "top"@,
        SortMode::Rising => "rising"@,
        SortMode::Controversial => "controversial"@,
    }
}

/// The sort mode a name denotes, if any.
pub open spec fn sort_of(s: Seq<char>) -> Option<SortMode> {
    if s == "hot"@ {
        Some(SortMode::Hot)
    } else if s == "new"@ {
        Some(SortMode::New)
    } else if s == "top"@ {
        Some(SortMode::Top)
    } else if s == "rising"@ {
        Some(SortMode::Rising)
    } else if s == "controversial"@ {
        Some(SortMode::Controversial)
    } else {
        None
    }
}

impl SortMode {
    pub fn as_str(&self) -> (r: &'static str)
        ensures
            r@ == sort_name(*self),
    {
        match self {
            SortMode::Hot => "hot",
            SortMode::New => "new",
            SortMode::Top => "top",
            SortMode::Rising => "rising",
            SortMode::Controversial => "controversial",
        }
    }

    /// The sort mode a name denotes, if any.
    pub fn from_name(s: &String) -> (r: Option<SortMode>)
        ensures
            r == sort_of(s@),
    {
        if *s == String::from_str("hot") {
            Some(SortMode::Hot)
        } else if *s == String::from_str("new") {
            Some(SortMode::New)
        } else if *s == String::from_str("top") {
            Some(SortMode::Top)
        } else if *s == String::from_str("rising") {
            Some(SortMode::Rising)
        } else if *s == String::from_str("controversial") {
            Some(SortMode::Controversial)
        } else {
            None
        }
    }
}

pub open spec fn is_digit(c: char) -> bool {
    '0' <= c && c <= '9'
}

/// The value of a string of decimal digits.
pub open spec fn digits_value(s: Seq<char>) -> nat
    decreases s.len(),
{
    if s.len() == 0 {
        0
    } else {
        digits_value(s.drop_last()) * 10 + ((s.last() as u32) - ('0' as u32)) as nat
    }
}

/// What `str::parse::<u64>` gives: an optional `+` followed by one or more ASCII
/// decimal digits whose value fits in 64 bits; nothing else is a number.
pub open spec fn parsed_u64(s: Seq<char>) -> Option<u64> {
    let d = if s.len() > 0 && s[0] == '+' { s.drop_first() } else { s };
    if d.len() > 0 && (forall|i: int| 0 <= i < d.len() ==> is_digit(#[trigger] d[i]))
        && digits_value(d) <= u64::MAX {
        Some(digits_value(d) as u64)
    } else {
        None
    }
}

/// Relies on u64's `FromStr` (`str::parse::<u64>`), which accepts exactly an
/// optional `+` and one or more ASCII digits whose value fits, and gives that value.
#[verifier::external_body]
fn parse_u64(s: &str) -> (r: Option<u64>)
    ensures
        r == parsed_u64(s@),
{
    s.parse::<u64>().ok()
}

/// The feed polled when no target is given.
pub open spec fn default_target() -> Seq<char> {
    "rust"@
}

/// The interval, in seconds, used when none is given or it is not a number.
pub const DEFAULT_INTERVAL_SECS: u64 = 60;

/// What the loop polls, how the feed is ordered, and how long it waits between ticks.
#[derive(Debug)]
pub struct PollConfig {
    pub target: String,
    pub sort: SortMode,
    pub interval_secs: u64,
    /// A sort mode that was asked for but is not one of the known names; `sort`
    /// then is `Hot`.
    pub rejected_sort: Option<String>,
}

/// The argument at `i`, or `default` where there are too few.
pub open spec fn arg_or(args: Seq<String>, i: int, default: Seq<char>) -> Seq<char> {
    if i < args.len() {
        args[i]@
    } else {
        default
    }
}

impl PollConfig {
    /// Reads the configuration from the program's arguments (`args[0]` being the
    /// program): target, sort mode and interval in seconds, each optional. An
    /// unknown sort mode becomes `Hot` and is kept in `rejected_sort`; an interval
    /// that is not a number becomes the default.
    pub fn parse_arguments(args: &Vec<String>) -> (r: PollConfig)
        ensures
            r.target@ == arg_or(args@, 1, default_target()),
            r.sort == (match sort_of(arg_or(args@, 2, "hot"@)) {
                Some(m) => m,
                None => SortMode::Hot,
            }),
            sort_of(arg_or(args@, 2, "hot"@)) is None <==> r.rejected_sort is Some,
            r.rejected_sort is Some ==> r.rejected_sort->Some_0@ == arg_or(args@, 2, "hot"@),
            r.interval_secs == (if 3 < args@.len() {
                match parsed_u64(args@[3]@) {
                    Some(v) => v,
                    None => DEFAULT_INTERVAL_SECS,
                }
            } else {
                DEFAULT_INTERVAL_SECS
            }),
    {
        let target = if 1 < args.len() {
            args[1].clone()
        } else {
            String::from_str("rust")
        };
        let requested = if 2 < args.len() {
            args[2].clone()
        } else {
            String::from_str("hot")
        };
        let interval_secs = if 3 < args.len() {
            match parse_u64(args[3].as_str()) {
                Some(v) => v,
                None => DEFAULT_INTERVAL_SECS,
            }
        } else {
            DEFAULT_INTERVAL_SECS
        };
        match SortMode::from_name(&requested) {
            Some(sort) => PollConfig { target, sort, interval_secs, rejected_sort: None },
            None => PollConfig {
                target,
                sort: SortMode::Hot,
                interval_secs,
                rejected_sort: Some(requested),
            },
        }
    }

    /// The URL of the single request made on each tick.
    pub fn request_url(&self) -> (r: String)
        ensures
            r@ == "https://www.reddit.com/r/"@ + self.target@ + "/"@ + sort_name(self.sort)
                + "/.json"@,
    {
        let mut r = String::from_str("https://www.reddit.com/r/");
        r.append(self.target.as_str());
        r.append("/");
        r.append(self.sort.as_str());
        r.append("/.json");
        r
    }
}

} // verus!
