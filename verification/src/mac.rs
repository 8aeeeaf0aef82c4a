//! Ethernet (EUI-48) hardware addresses.
use vstd::prelude::*;

verus! {

/// The lowercase hexadecimal digit for `d` (`d < 16`).
pub open spec fn hex_digit(d: nat) -> char {
    if d < 10 {
        (48 + d) as char
    } else {
        (87 + d) as char
    }
}

/// Two lowercase hexadecimal digits for a byte, zero padded.
pub open spec fn hex_byte(b: u8) -> Seq<char> {
    seq![hex_digit((b / 16) as nat), hex_digit((b % 16) as nat)]
}

/// The colon-separated lowercase rendering `xx:xx:xx:xx:xx:xx` of six octets.
pub open spec fn mac_text(o: Seq<u8>) -> Seq<char> {
    hex_byte(o[0]) + seq![':'] + hex_byte(o[1]) + seq![':'] + hex_byte(o[2]) + seq![':']
        + hex_byte(o[3]) + seq![':'] + hex_byte(o[4]) + seq![':'] + hex_byte(o[5])
}

/// Renders six octets with `mac_addr::MacAddr::address`, whose source formats
/// each octet as `{:02x}` and joins them with `:`.
#[verifier::external_body]
fn octets_text(o: [u8; 6]) -> (res: String)
    ensures
        res@ == mac_text(o@),
{
    mac_addr::MacAddr::from_octets(o).address()
}

/// A 48-bit MAC address.
#[derive(Clone, Copy, Debug, PartialEq, Eq, Hash, Structural)]
pub struct MacAddress {
    a: u8,
    b: u8,
    c: u8,
    d: u8,
    e: u8,
    f: u8,
}

impl MacAddress {
    /// The six octets, most significant (transmitted first) first.
    pub closed spec fn spec_octets(self) -> Seq<u8> {
        seq![self.a, self.b, self.c, self.d, self.e, self.f]
    }

    /// The group bit (least significant bit of the first octet) is set.
    pub open spec fn spec_is_multicast(self) -> bool {
        self.spec_octets()[0] & 1 == 1
    }

    /// The locally-administered bit (second bit of the first octet) is set.
    pub open spec fn spec_is_locally_administered(self) -> bool {
        self.spec_octets()[0] & 2 == 2
    }

    /// Builds an address from its six octets.
    pub fn new(a: u8, b: u8, c: u8, d: u8, e: u8, f: u8) -> (res: Self)
        ensures
            res.spec_octets() == seq![a, b, c, d, e, f],
    {
        MacAddress { a, b, c, d, e, f }
    }

    /// The six octets.
    pub fn octets(&self) -> (res: [u8; 6])
        ensures
            res@ == self.spec_octets(),
    {
        let res = [self.a, self.b, self.c, self.d, self.e, self.f];
        assert(res@ =~= self.spec_octets());
        res
    }

    /// Whether this is a multicast (group) address.
    pub fn is_multicast(&self) -> (res: bool)
        ensures
            res == self.spec_is_multicast(),
    {
        self.a & 1 == 1
    }

    /// Whether this is a unicast address: neither multicast nor broadcast.
    /// (The broadcast address has the group bit set, so this is the same as
    /// not being multicast.)
    pub fn is_unicast(&self) -> (res: bool)
        ensures
            res == !self.spec_is_multicast(),
    {
        !self.is_multicast()
    }

    /// Whether the address is locally administered.
    pub fn is_locally_administered(&self) -> (res: bool)
        ensures
            res == self.spec_is_locally_administered(),
    {
        self.a & 2 == 2
    }

    /// Whether the address is universally administered (a vendor OUI).
    pub fn is_universal(&self) -> (res: bool)
        ensures
            res == !self.spec_is_locally_administered(),
    {
        !self.is_locally_administered()
    }

    /// The colon-separated lowercase hexadecimal form, e.g. `52:54:00:12:34:56`.
    pub fn to_string(&self) -> (res: String)
        ensures
            res@ == mac_text(self.spec_octets()),
    {
        octets_text(self.octets())
    }
}

} // verus!
