use vstd::prelude::*;

pub mod driver;
pub mod header;

verus! {

/// A 48-bit Ethernet hardware address, kept as its six wire bytes.
#[derive(Debug, Clone, Copy)]
pub struct MacAddress {
    pub address: [u8; 6],
}

impl MacAddress {
    pub fn new(address: [u8; 6]) -> (r: Self)
        ensures
            r.address@ == address@,
    {
        MacAddress { address }
    }
}

impl PartialEq for MacAddress {
    fn eq(&self, other: &Self) -> (r: bool)
    {
        let r = self.address[0] == other.address[0] && self.address[1] == other.address[1]
            && self.address[2] == other.address[2] && self.address[3] == other.address[3]
            && self.address[4] == other.address[4] && self.address[5] == other.address[5];
        proof {
            if r {
                assert(self.address@ =~= other.address@);
            }
            if self.address@ == other.address@ {
                assert(self.address@[0] == other.address@[0]);
                assert(self.address@[1] == other.address@[1]);
                assert(self.address@[2] == other.address@[2]);
                assert(self.address@[3] == other.address@[3]);
                assert(self.address@[4] == other.address@[4]);
                assert(self.address@[5] == other.address@[5]);
            }
        }
        r
    }
}

impl vstd::std_specs::cmp::PartialEqSpecImpl for MacAddress {
    open spec fn obeys_eq_spec() -> bool {
        true
    }

    open spec fn eq_spec(&self, other: &Self) -> bool {
        self.address@ == other.address@
    }
}

/// The all-ones address that every station receives.
pub open spec fn spec_broadcast_mac() -> Seq<u8> {
    seq![0xFFu8, 0xFFu8, 0xFFu8, 0xFFu8, 0xFFu8, 0xFFu8]
}

pub fn broadcast_mac_addr() -> (r: MacAddress)
    ensures
        r.address@ == spec_broadcast_mac(),
{
    let r = MacAddress { address: [0xFF, 0xFF, 0xFF, 0xFF, 0xFF, 0xFF] };
    proof {
        assert(r.address@ =~= spec_broadcast_mac());
    }
    r
}

/// Append the six bytes of `mac`.
pub fn push_mac(out: &mut Vec<u8>, mac: &MacAddress)
    ensures
        final(out)@ == old(out)@ + mac.address@,
{
    proof {
        assert(out@ =~= old(out)@ + mac.address@.subrange(0, 0));
    }
    let mut i: usize = 0;
    while i < 6
        invariant
            i <= 6,
            out@ == old(out)@ + mac.address@.subrange(0, i as int),
        decreases 6 - i,
    {
        out.push(mac.address[i]);
        proof {
            assert(out@ =~= old(out)@ + mac.address@.subrange(0, i as int + 1));
        }
        i = i + 1;
    }
    proof {
        assert(out@ =~= old(out)@ + mac.address@);
    }
}

/// Copy the six bytes found at offset `i` of `d` into an address.
pub fn read_mac(d: &[u8], i: usize) -> (r: MacAddress)
    requires
        i + 6 <= d@.len(),
    ensures
        r.address@ == d@.subrange(i as int, i as int + 6),
{
    let r = MacAddress {
        address: [d[i], d[i + 1], d[i + 2], d[i + 3], d[i + 4], d[i + 5]],
    };
    proof {
        assert(r.address@ =~= d@.subrange(i as int, i as int + 6));
    }
    r
}

} // verus!
