//! The liveness token that opens every connection.

use vstd::prelude::*;

verus! {

/// Number of bytes in the liveness token.
pub const HANDSHAKE_LEN: usize = 6;

/// The token as it appears on the wire: the ASCII text `READY` and a line feed.
pub open spec fn handshake_token() -> Seq<u8> {
    seq![0x52u8, 0x45u8, 0x41u8, 0x44u8, 0x59u8, 0x0au8]
}

/// The bytes a server writes first on every accepted connection.
pub fn handshake_bytes() -> (token: Vec<u8>)
    ensures
        token@ == handshake_token(),
        token@.len() == HANDSHAKE_LEN,
{
    let mut token: Vec<u8> = Vec::new();
    token.push(0x52u8);
    token.push(0x45u8);
    token.push(0x41u8);
    token.push(0x44u8);
    token.push(0x59u8);
    token.push(0x0au8);
    assert(token@ =~= handshake_token());
    token
}

/// Whether `received` is exactly the liveness token. A short read, a long
/// read and a read of six other bytes all fail alike.
pub fn verify_handshake(received: &[u8]) -> (ok: bool)
    ensures
        ok == (received@ == handshake_token()),
{
    if received.len() != HANDSHAKE_LEN {
        assert(handshake_token().len() == 6);
        return false;
    }
    let ok = received[0] == 0x52u8 && received[1] == 0x45u8 && received[2] == 0x41u8
        && received[3] == 0x44u8 && received[4] == 0x59u8 && received[5] == 0x0au8;
    proof {
        if ok {
            assert(received@ =~= handshake_token());
        } else {
            let t = handshake_token();
            assert(t[0] == 0x52u8 && t[1] == 0x45u8 && t[2] == 0x41u8 && t[3] == 0x44u8
                && t[4] == 0x59u8 && t[5] == 0x0au8);
        }
    }
    ok
}

} // verus!
