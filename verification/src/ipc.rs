//! Where the daemon's command socket lives.

use vstd::prelude::*;
use crate::text::{concat, owned};

verus! {

/// The socket path: `handyx.sock` in `XDG_RUNTIME_DIR` when that is set,
/// else `/tmp/handyx.sock`.
pub open spec fn socket_path(runtime_dir: Option<Seq<char>>) -> Seq<char> {
    match runtime_dir {
        Some(d) => d + "/handyx.sock"@,
        None => "/tmp/handyx.sock"@,
    }
}

/// The socket path for the given value of `XDG_RUNTIME_DIR`.
pub fn get_socket_path(runtime_dir: Option<&str>) -> (r: String)
    ensures
        r@ == socket_path(
            match runtime_dir {
                Some(d) => Some(d@),
                None => None,
            },
        ),
{
    match runtime_dir {
        Some(d) => concat(d, "/handyx.sock"),
        None => owned("/tmp/handyx.sock"),
    }
}

} // verus!
