//! The Ethernet II frame model: a byte buffer of at least the fixed header
//! length, decomposed into destination MAC, source MAC, big-endian EtherType,
//! and payload.

use vstd::prelude::*;

verus! {

/// Length of the fixed Ethernet II header: 6-byte destination MAC,
/// 6-byte source MAC, 2-byte EtherType.
pub const ETHERNET_HEADER_LEN: usize = 14;

/// EtherType value identifying an IPv4 payload.
pub const ETHERTYPE_IPV4: u16 = 0x0800;

/// The EtherType carried by a raw frame: bytes 12 and 13, big-endian.
pub open spec fn spec_ethertype(bytes: Seq<u8>) -> int
    recommends
        bytes.len() >= ETHERNET_HEADER_LEN,
{
    (bytes[12] as int) * 0x100 + (bytes[13] as int)
}

/// Whether a raw buffer is long enough to be an Ethernet II frame.
pub open spec fn spec_valid_frame(bytes: Seq<u8>) -> bool {
    bytes.len() >= ETHERNET_HEADER_LEN
}

/// An owned Ethernet II frame. Construction guarantees the buffer holds at
/// least the fixed header; shorter buffers are not representable.
pub struct EthernetFrame {
    bytes: Vec<u8>,
}

impl View for EthernetFrame {
    type V = Seq<u8>;

    closed spec fn view(&self) -> Seq<u8> {
        self.bytes@
    }
}

impl EthernetFrame {
    /// Well-formedness: the buffer holds the whole fixed header.
    pub open spec fn wf(&self) -> bool {
        spec_valid_frame(self@)
    }

    /// Parse a raw buffer into an owned frame, copying the bytes.
    /// Fails exactly when the buffer is shorter than the fixed header.
    pub fn parse(buf: &[u8]) -> (r: Option<EthernetFrame>)
        ensures
            buf@.len() >= ETHERNET_HEADER_LEN <==> r is Some,
            r is Some ==> r->Some_0@ == buf@ && r->Some_0.wf(),
    {
        if buf.len() < ETHERNET_HEADER_LEN {
            None
        } else {
            let mut bytes: Vec<u8> = Vec::new();
            let mut i: usize = 0;
            while i < buf.len()
                invariant
                    i <= buf@.len(),
                    bytes@ == buf@.subrange(0, i as int),
                decreases buf@.len() - i,
            {
                bytes.push(buf[i]);
                i = i + 1;
                proof {
                    assert(bytes@ =~= buf@.subrange(0, i as int));
                }
            }
            proof {
                assert(bytes@ =~= buf@);
            }
            Some(EthernetFrame { bytes })
        }
    }

    /// Total number of bytes in the frame, header included.
    pub fn len(&self) -> (n: usize)
        ensures
            n == self@.len(),
    {
        self.bytes.len()
    }

    /// The EtherType field, read big-endian from bytes 12 and 13.
    pub fn ethertype(&self) -> (t: u16)
        requires
            self.wf(),
        ensures
            t as int == spec_ethertype(self@),
    {
        (self.bytes[12] as u16) * 0x100 + (self.bytes[13] as u16)
    }

    /// The destination MAC address: the first six bytes.
    pub fn destination(&self) -> (r: Vec<u8>)
        requires
            self.wf(),
        ensures
            r@ == self@.subrange(0, 6),
    {
        self.copy_range(0, 6)
    }

    /// The source MAC address: bytes 6 through 11.
    pub fn source(&self) -> (r: Vec<u8>)
        requires
            self.wf(),
        ensures
            r@ == self@.subrange(6, 12),
    {
        self.copy_range(6, 12)
    }

    /// The payload: every byte after the fixed header.
    pub fn payload(&self) -> (r: Vec<u8>)
        requires
            self.wf(),
        ensures
            r@ == self@.subrange(ETHERNET_HEADER_LEN as int, self@.len() as int),
    {
        let n = self.bytes.len();
        self.copy_range(ETHERNET_HEADER_LEN, n)
    }

    /// A copy of the whole frame, byte for byte: the transmit buffer,
    /// sized exactly to the frame's length.
    pub fn to_bytes(&self) -> (r: Vec<u8>)
        ensures
            r@ == self@,
    {
        let n = self.bytes.len();
        let r = self.copy_range(0, n);
        proof {
            assert(r@ =~= self@);
        }
        r
    }

    /// Copy the byte range `lo..hi` of the frame into a fresh buffer.
    fn copy_range(&self, lo: usize, hi: usize) -> (r: Vec<u8>)
        requires
            lo <= hi <= self@.len(),
        ensures
            r@ == self@.subrange(lo as int, hi as int),
    {
        let mut r: Vec<u8> = Vec::new();
        let mut i: usize = lo;
        while i < hi
            invariant
                lo <= i <= hi <= self@.len(),
                r@ == self@.subrange(lo as int, i as int),
            decreases hi - i,
        {
            r.push(self.bytes[i]);
            i = i + 1;
            proof {
                assert(r@ =~= self@.subrange(lo as int, i as int));
            }
        }
        r
    }
}

} // verus!
