use vstd::prelude::*;
use vstd::string::StringExecFns;

verus! {

/// The text of an optional field, or `fallback` when it is absent.
pub fn text_or<'a>(s: &'a Option<String>, fallback: &'a str) -> (r: &'a str)
    ensures
        r@ == match s {
            Some(x) => x@,
            None => fallback@,
        },
{
    match s {
        Some(x) => x.as_str(),
        None => fallback,
    }
}

/// The number in a playlist row's first column: the track number from the
/// tag, else the row's position counted from one.
pub fn track_number(idx: usize, track_no: Option<u16>) -> (r: usize)
    requires
        idx < usize::MAX,
    ensures
        r == match track_no {
            Some(n) => n as usize,
            None => (idx + 1) as usize,
        },
{
    match track_no {
        Some(n) => n as usize,
        None => idx + 1,
    }
}

/// The title column of a playlist row: the tag's title, else the file name
/// without its extension, else `?`.
pub fn row_title(title: Option<String>, file_stem: Option<String>) -> (r: String)
    ensures
        r@ == match title {
            Some(t) => t@,
            None => match file_stem {
                Some(s) => s@,
                None => "?"@,
            },
        },
{
    match title {
        Some(t) => t,
        None => match file_stem {
            Some(s) => s,
            None => String::from_str("?"),
        },
    }
}

} // verus!
