use vstd::prelude::*;
use vstd::string::StringSliceAdditionalSpecFns;

verus! {

/// The bytes of a name that marks an editor's socket directory.
pub open spec fn session_prefix() -> Seq<u8> {
    seq![110u8, 118u8, 105u8, 109u8]
}

/// An entry of the temporary directory holds editor sockets when it is a
/// directory whose name begins with "nvim".
pub fn is_session_dir(is_dir: bool, name: &str) -> (r: bool)
    ensures
        r == (is_dir && name.spec_bytes().len() >= 4 && name.spec_bytes().take(4)
            == session_prefix()),
{
    let b = name.as_bytes();
    if !is_dir || b.len() < 4 {
        return false;
    }
    let r = b[0] == 110u8 && b[1] == 118u8 && b[2] == 105u8 && b[3] == 109u8;
    assert(r ==> b@.take(4) =~= session_prefix());
    assert(b@.take(4) == session_prefix() ==> b@.take(4)[0] == 110u8 && b@.take(4)[1] == 118u8
        && b@.take(4)[2] == 105u8 && b@.take(4)[3] == 109u8);
    r
}

} // verus!
