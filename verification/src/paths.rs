//! File-system locations, computed as strings from the user's environment.

use vstd::prelude::*;
use crate::text::{concat, owned};

verus! {

/// `PathBuf::join` on Unix: an absolute `name` replaces `base`; otherwise a
/// separator is added unless `base` is empty or already ends with one.
pub open spec fn join_path(base: Seq<char>, name: Seq<char>) -> Seq<char> {
    if name.len() > 0 && name[0] == '/' {
        name
    } else if base.len() == 0 || base.last() == '/' {
        base + name
    } else {
        base + seq!['/'] + name
    }
}

/// `base` joined with `name` as `PathBuf::join` does it.
pub fn path_join(base: &str, name: &str) -> (r: String)
    ensures
        r@ == join_path(base@, name@),
{
    let nv = crate::text::chars_of(name);
    if nv.len() > 0 && nv[0] == '/' {
        return owned(name);
    }
    let bv = crate::text::chars_of(base);
    if bv.len() == 0 || bv[bv.len() - 1] == '/' {
        concat(base, name)
    } else {
        let with_sep = concat(base, "/");
        proof {
            reveal_strlit("/");
        }
        concat(with_sep.as_str(), name)
    }
}

/// The home directory, or `.` when `HOME` is not set.
pub open spec fn home_or_dot(home: Option<Seq<char>>) -> Seq<char> {
    match home {
        Some(h) => h,
        None => seq!['.'],
    }
}

/// The value of `HOME`, or `.` when it is not set.
pub fn home_dir(home: Option<&str>) -> (r: String)
    ensures
        r@ == home_or_dot(
            match home {
                Some(h) => Some(h@),
                None => None,
            },
        ),
{
    match home {
        Some(h) => owned(h),
        None => {
            let r = owned(".");
            proof {
                reveal_strlit(".");
            }
            r
        },
    }
}

} // verus!
