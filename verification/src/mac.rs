//! The address type and its canonical text.

use vstd::prelude::*;
use vstd::string::StringExecFns;
use crate::hex::{octet_text, push_octet_text};

verus! {

/// A hardware address: six octets, the first of which carries the multicast
/// and local-assignment bits.
#[derive(Clone, Copy, Debug, PartialEq, Eq)]
pub struct MacAddr {
    bytes: [u8; 6],
}

impl View for MacAddr {
    type V = Seq<u8>;

    closed spec fn view(&self) -> Seq<u8> {
        self.bytes@
    }
}

/// The canonical text of six octets: each as two upper-case hexadecimal
/// digits, joined by colons.
pub open spec fn mac_text(octets: Seq<u8>) -> Seq<char>
    recommends
        octets.len() == 6,
{
    octet_text(octets[0]) + seq![':'] + octet_text(octets[1]) + seq![':'] + octet_text(octets[2])
        + seq![':'] + octet_text(octets[3]) + seq![':'] + octet_text(octets[4]) + seq![':']
        + octet_text(octets[5])
}

/// The multicast bit, bit 0 of the first octet, is clear.
pub open spec fn is_unicast(octets: Seq<u8>) -> bool
    recommends
        octets.len() == 6,
{
    octets[0] & 0x01 == 0
}

/// The local-assignment bit, bit 1 of the first octet, is set.
pub open spec fn is_locally_administered(octets: Seq<u8>) -> bool
    recommends
        octets.len() == 6,
{
    octets[0] & 0x02 == 0x02
}

/// Every octet is zero.
pub open spec fn is_all_zero(octets: Seq<u8>) -> bool {
    forall|i: int| 0 <= i < octets.len() ==> octets[i] == 0
}

/// The first octet of a locally administered unicast address made from
/// `raw`: bit 0 cleared, then bit 1 set, the other six bits kept.
pub open spec fn local_unicast_octet(raw: u8) -> u8 {
    (raw & 0xfe) | 0x02
}

impl MacAddr {
    /// The address made of `bytes`, in order.
    pub fn new(bytes: [u8; 6]) -> (addr: MacAddr)
        ensures
            addr@ == bytes@,
    {
        MacAddr { bytes }
    }

    /// The six octets, in order.
    pub fn octets(&self) -> (bytes: [u8; 6])
        ensures
            bytes@ == self@,
    {
        self.bytes
    }

    /// Every address has exactly six octets.
    pub proof fn lemma_six_octets(self)
        ensures
            self@.len() == 6,
    {
    }

    /// The locally administered unicast address made from six arbitrary
    /// octets: only the two low bits of the first octet are changed.
    pub fn local_unicast(raw: [u8; 6]) -> (addr: MacAddr)
        ensures
            addr@ == raw@.update(0, local_unicast_octet(raw@[0])),
            is_unicast(addr@),
            is_locally_administered(addr@),
    {
        let mut bytes = raw;
        let first = bytes[0];
        bytes[0] = (first & 0xfe) | 0x02;
        assert(((first & 0xfe) | 0x02) & 0x01 == 0) by (bit_vector);
        assert(((first & 0xfe) | 0x02) & 0x02 == 0x02) by (bit_vector);
        MacAddr { bytes }
    }

    /// Whether every octet is zero.
    pub fn is_zero(&self) -> (zero: bool)
        ensures
            zero == is_all_zero(self@),
    {
        let mut i: usize = 0;
        while i < 6
            invariant
                i <= 6,
                forall|j: int| 0 <= j < i ==> self.bytes@[j] == 0,
            decreases 6 - i,
        {
            if self.bytes[i] != 0 {
                return false;
            }
            i += 1;
        }
        true
    }

    /// The canonical text `XX:XX:XX:XX:XX:XX`.
    pub fn to_string(&self) -> (text: String)
        ensures
            text@ == mac_text(self@),
    {
        let mut text = String::new();
        push_octet_text(&mut text, self.bytes[0]);
        text.append(":");
        push_octet_text(&mut text, self.bytes[1]);
        text.append(":");
        push_octet_text(&mut text, self.bytes[2]);
        text.append(":");
        push_octet_text(&mut text, self.bytes[3]);
        text.append(":");
        push_octet_text(&mut text, self.bytes[4]);
        text.append(":");
        push_octet_text(&mut text, self.bytes[5]);
        proof {
            reveal_strlit(":");
            assert(":"@ =~= seq![':']);
        }
        text
    }
}

} // verus!
