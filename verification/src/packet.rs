//! The wake-on-LAN magic packet.
//!
//! A magic packet is a fixed 102-byte payload: six bytes of `0xFF`
//! followed by the six-byte hardware address of the target device,
//! repeated sixteen times.  A network interface that receives this
//! payload anywhere in a frame powers its host on.

use vstd::prelude::*;

verus! {

/// The byte at position `i` of the magic packet for `mac`:
/// `0xFF` for the first six positions, then the address repeated.
pub open spec fn spec_magic_byte(mac: Seq<u8>, i: int) -> u8 {
    if i < 6 {
        0xFF
    } else {
        mac[(i - 6) % 6]
    }
}

/// The full magic packet for `mac` as a sequence of bytes.
pub open spec fn spec_magic_packet(mac: Seq<u8>) -> Seq<u8> {
    Seq::new(102, |i: int| spec_magic_byte(mac, i))
}

/// Builds the magic packet for the given hardware address.
pub fn magic_packet(mac: &[u8; 6]) -> (r: Vec<u8>)
    ensures
        r@ == spec_magic_packet(mac@),
        r@.len() == 102,
{
    let mut r: Vec<u8> = Vec::new();
    let mut i: usize = 0;
    while i < 6
        invariant
            i <= 6,
            r@.len() == i,
            forall|j: int| 0 <= j < i ==> r@[j] == spec_magic_byte(mac@, j),
        decreases 6 - i,
    {
        r.push(0xFF);
        i = i + 1;
    }
    while i < 102
        invariant
            6 <= i <= 102,
            r@.len() == i,
            forall|j: int| 0 <= j < i ==> r@[j] == spec_magic_byte(mac@, j),
        decreases 102 - i,
    {
        let k: usize = (i - 6) % 6;
        r.push(mac[k]);
        i = i + 1;
    }
    proof {
        assert(r@ =~= spec_magic_packet(mac@));
    }
    r
}

} // verus!
