//! The addresses of the datagram transport.
//!
//! The parameter is `localport:remoteport` or `localport:remoteport:remotehost`.
//! Frames are sent from the local port of this machine to the remote port of
//! the remote host, which is this machine where none is named.

use crate::text::{split, split_spec, texts};
use vstd::prelude::*;
use vstd::string::{StrSliceExecFns, StringExecFns};

verus! {

/// The address of this machine, followed by a colon.
pub open spec fn localhost() -> Seq<char> {
    "127.0.0.1:"@
}

/// The address to bind to under the parameters `cli`; none where they name
/// no remote port.
pub open spec fn our_address(cli: Seq<char>) -> Option<Seq<char>> {
    let fission = split_spec(cli, ':');
    if fission.len() < 2 {
        None
    } else {
        Some(localhost() + fission[0])
    }
}

/// The address to send to under the parameters `cli`; none where they name
/// no remote port.
pub open spec fn their_address(cli: Seq<char>) -> Option<Seq<char>> {
    let fission = split_spec(cli, ':');
    if fission.len() < 2 {
        None
    } else if fission.len() == 2 || fission[2].len() == 0 {
        Some(localhost() + fission[1])
    } else {
        Some(fission[2] + seq![':'] + fission[1])
    }
}

/// The two ends of the datagram transport, each as `host:port`.
pub struct Addresses {
    /// Where to bind.
    pub ours: String,
    /// Where to send.
    pub theirs: String,
}

/// The two ends of the datagram transport under the parameters `cli`.
pub fn addresses(cli: &str) -> (r: Option<Addresses>)
    ensures
        r is Some <==> our_address(cli@) is Some,
        r matches Some(a) ==> Some(a.ours@) == our_address(cli@) && Some(a.theirs@)
            == their_address(cli@),
{
    let fission = split(cli, ':');
    if fission.len() < 2 {
        return None;
    }
    let localport: &str = fission[0];
    let remoteport: &str = fission[1];
    assert(localport@ == texts(fission@)[0]);
    assert(remoteport@ == texts(fission@)[1]);
    proof {
        reveal_strlit(":");
    }
    let mut ours = String::from_str("127.0.0.1:");
    ours.append(localport);
    let mut remotehost: &str = "";
    if fission.len() > 2 {
        remotehost = fission[2];
        assert(remotehost@ == texts(fission@)[2]);
    }
    let theirs = if fission.len() == 2 || remotehost.unicode_len() == 0 {
        let mut theirs = String::from_str("127.0.0.1:");
        theirs.append(remoteport);
        theirs
    } else {
        let mut theirs = String::from_str(remotehost);
        theirs.append(":");
        theirs.append(remoteport);
        assert(theirs@ =~= remotehost@ + seq![':'] + remoteport@);
        theirs
    };
    Some(Addresses { ours, theirs })
}

} // verus!
