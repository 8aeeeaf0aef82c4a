//! A coherent fake hardware identity, drawn at random from a set of
//! real-world machines.
use rand::rngs::ThreadRng;
use rand::Rng;
use vstd::prelude::*;

use crate::mac::MacAddress;

verus! {

/// A coherent fake hardware identity for a VM.
///
/// [`HardwareProfile::generate`] draws every field to describe a plausible
/// real-world machine. The profile is consumed by the other stealth modules
/// to derive CPUID args, SMBIOS tables and device IDs.
#[derive(Debug, Clone)]
pub struct HardwareProfile {
    /// CPU vendor string (e.g. `"GenuineIntel"`).
    pub cpu_vendor: String,
    /// CPU model string (e.g. `"Intel(R) Core(TM) i7-10700K CPU @ 3.80GHz"`).
    pub cpu_model: String,
    /// BIOS vendor (e.g. `"American Megatrends Inc."`).
    pub bios_vendor: String,
    /// BIOS version string (e.g. `"F14"`).
    pub bios_version: String,
    /// System manufacturer (e.g. `"GIGABYTE"`).
    pub system_manufacturer: String,
    /// System product name (e.g. `"Z490 AORUS ELITE"`).
    pub system_product: String,
    /// System serial number (random upper-case letters and digits).
    pub system_serial: String,
    /// Base board manufacturer.
    pub board_manufacturer: String,
    /// Base board product name.
    pub board_product: String,
    /// Base board serial number.
    pub board_serial: String,
    /// MAC address for the primary NIC.
    pub mac_address: MacAddress,
}

/// The number of predefined machines a profile is drawn from.
pub const TEMPLATE_COUNT: usize = 4;

/// The number of characters a serial number is drawn from.
pub const SERIAL_ALPHABET_LEN: usize = 36;

/// The length of a generated system serial number.
pub const SYSTEM_SERIAL_LEN: usize = 10;

/// The length of a generated base board serial number.
pub const BOARD_SERIAL_LEN: usize = 8;

/// The first two octets of every generated MAC address: a universally
/// administered unicast vendor prefix, as real NICs carry.
pub const MAC_PREFIX: [u8; 2] = [0x00, 0x1b];

/// The fixed (non-random) strings of one predefined machine.
pub ghost struct Template {
    pub cpu_vendor: Seq<char>,
    pub cpu_model: Seq<char>,
    pub bios_vendor: Seq<char>,
    pub bios_version: Seq<char>,
    pub system_manufacturer: Seq<char>,
    pub system_product: Seq<char>,
    pub board_manufacturer: Seq<char>,
    pub board_product: Seq<char>,
}

/// The predefined machine number `i` (`i < TEMPLATE_COUNT`).
pub open spec fn template(i: int) -> Template {
    if i == 0 {
        Template {
            cpu_vendor: "GenuineIntel"@,
            cpu_model: "Intel(R) Core(TM) i7-10700K CPU @ 3.80GHz"@,
            bios_vendor: "American Megatrends Inc."@,
            bios_version: "F14"@,
            system_manufacturer: "GIGABYTE"@,
            system_product: "Z490 AORUS ELITE"@,
            board_manufacturer: "GIGABYTE"@,
            board_product: "Z490 AORUS ELITE"@,
        }
    } else if i == 1 {
        Template {
            cpu_vendor: "GenuineIntel"@,
            cpu_model: "Intel(R) Core(TM) i9-12900K CPU @ 3.20GHz"@,
            bios_vendor: "American Megatrends International, LLC."@,
            bios_version: "1602"@,
            system_manufacturer: "ASUSTeK COMPUTER INC."@,
            system_product: "ROG STRIX Z690-E GAMING WIFI"@,
            board_manufacturer: "ASUSTeK COMPUTER INC."@,
            board_product: "ROG STRIX Z690-E GAMING WIFI"@,
        }
    } else if i == 2 {
        Template {
            cpu_vendor: "AuthenticAMD"@,
            cpu_model: "AMD Ryzen 9 5900X 12-Core Processor"@,
            bios_vendor: "American Megatrends Inc."@,
            bios_version: "3003"@,
            system_manufacturer: "Micro-Star International Co., Ltd."@,
            system_product: "MEG X570 UNIFY"@,
            board_manufacturer: "Micro-Star International Co., Ltd."@,
            board_product: "MEG X570 UNIFY (MS-7C35)"@,
        }
    } else {
        Template {
            cpu_vendor: "AuthenticAMD"@,
            cpu_model: "AMD Ryzen 7 5800X 8-Core Processor"@,
            bios_vendor: "American Megatrends Inc."@,
            bios_version: "F35"@,
            system_manufacturer: "GIGABYTE"@,
            system_product: "X570 AORUS MASTER"@,
            board_manufacturer: "GIGABYTE"@,
            board_product: "X570 AORUS MASTER"@,
        }
    }
}

/// Character `k` of the serial alphabet `A..=Z` followed by `0..=9`.
pub open spec fn serial_char(k: int) -> char {
    if k < 26 {
        (65 + k) as char
    } else {
        (48 + (k - 26)) as char
    }
}

/// Whether `c` belongs to the serial alphabet (an upper-case ASCII letter or
/// an ASCII digit).
pub open spec fn is_serial_char(c: char) -> bool {
    (65 <= c as int <= 90) || (48 <= c as int <= 57)
}

/// Whether `s` is a serial number of `len` characters of the serial alphabet.
pub open spec fn is_serial(s: Seq<char>, len: nat) -> bool {
    &&& s.len() == len
    &&& forall|i: int| 0 <= i < s.len() ==> is_serial_char(#[trigger] s[i])
}

impl HardwareProfile {
    /// The fixed strings of the profile are those of predefined machine `i`.
    pub open spec fn matches_template(self, i: int) -> bool {
        let t = template(i);
        &&& self.cpu_vendor@ == t.cpu_vendor
        &&& self.cpu_model@ == t.cpu_model
        &&& self.bios_vendor@ == t.bios_vendor
        &&& self.bios_version@ == t.bios_version
        &&& self.system_manufacturer@ == t.system_manufacturer
        &&& self.system_product@ == t.system_product
        &&& self.board_manufacturer@ == t.board_manufacturer
        &&& self.board_product@ == t.board_product
    }

    /// What every generated profile satisfies: the strings of one predefined
    /// machine, serials of the set lengths over the serial alphabet, and a MAC
    /// address under the fixed universally administered unicast prefix.
    pub open spec fn is_generated(self) -> bool {
        &&& exists|i: int| 0 <= i < TEMPLATE_COUNT && self.matches_template(i)
        &&& is_serial(self.system_serial@, SYSTEM_SERIAL_LEN as nat)
        &&& is_serial(self.board_serial@, BOARD_SERIAL_LEN as nat)
        &&& self.mac_address.spec_octets()[0] == MAC_PREFIX[0]
        &&& self.mac_address.spec_octets()[1] == MAC_PREFIX[1]
    }

    /// The profile of predefined machine `template` with the given serials and
    /// MAC address.
    pub fn from_template(
        template: usize,
        system_serial: String,
        board_serial: String,
        mac_address: MacAddress,
    ) -> (res: Self)
        requires
            template < TEMPLATE_COUNT,
        ensures
            res.matches_template(template as int),
            res.system_serial == system_serial,
            res.board_serial == board_serial,
            res.mac_address == mac_address,
    {
        let (cv, cm, bv, bver, sm, sp, bm, bp) = if template == 0 {
            (
                "GenuineIntel",
                "Intel(R) Core(TM) i7-10700K CPU @ 3.80GHz",
                "American Megatrends Inc.",
                "F14",
                "GIGABYTE",
                "Z490 AORUS ELITE",
                "GIGABYTE",
                "Z490 AORUS ELITE",
            )
        } else if template == 1 {
            (
                "GenuineIntel",
                "Intel(R) Core(TM) i9-12900K CPU @ 3.20GHz",
                "American Megatrends International, LLC.",
                "1602",
                "ASUSTeK COMPUTER INC.",
                "ROG STRIX Z690-E GAMING WIFI",
                "ASUSTeK COMPUTER INC.",
                "ROG STRIX Z690-E GAMING WIFI",
            )
        } else if template == 2 {
            (
                "AuthenticAMD",
                "AMD Ryzen 9 5900X 12-Core Processor",
                "American Megatrends Inc.",
                "3003",
                "Micro-Star International Co., Ltd.",
                "MEG X570 UNIFY",
                "Micro-Star International Co., Ltd.",
                "MEG X570 UNIFY (MS-7C35)",
            )
        } else {
            (
                "AuthenticAMD",
                "AMD Ryzen 7 5800X 8-Core Processor",
                "American Megatrends Inc.",
                "F35",
                "GIGABYTE",
                "X570 AORUS MASTER",
                "GIGABYTE",
                "X570 AORUS MASTER",
            )
        };
        HardwareProfile {
            cpu_vendor: cv.to_owned(),
            cpu_model: cm.to_owned(),
            bios_vendor: bv.to_owned(),
            bios_version: bver.to_owned(),
            system_manufacturer: sm.to_owned(),
            system_product: sp.to_owned(),
            system_serial,
            board_manufacturer: bm.to_owned(),
            board_product: bp.to_owned(),
            board_serial,
            mac_address,
        }
    }

    /// Generate a randomised but internally consistent hardware profile.
    pub fn generate() -> (res: Self)
        ensures
            res.is_generated(),
    {
        let mut rng = thread_rng();
        let t = random_below(&mut rng, TEMPLATE_COUNT);
        let system_serial = random_serial(&mut rng, SYSTEM_SERIAL_LEN);
        let board_serial = random_serial(&mut rng, BOARD_SERIAL_LEN);
        let mac_address = random_mac(&mut rng);
        Self::from_template(t, system_serial, board_serial, mac_address)
    }

    /// CPU vendor string.
    pub fn cpu_vendor(&self) -> (res: &str)
        ensures
            res@ == self.cpu_vendor@,
    {
        self.cpu_vendor.as_str()
    }

    /// CPU model string.
    pub fn cpu_model(&self) -> (res: &str)
        ensures
            res@ == self.cpu_model@,
    {
        self.cpu_model.as_str()
    }

    /// BIOS vendor.
    pub fn bios_vendor(&self) -> (res: &str)
        ensures
            res@ == self.bios_vendor@,
    {
        self.bios_vendor.as_str()
    }

    /// BIOS version.
    pub fn bios_version(&self) -> (res: &str)
        ensures
            res@ == self.bios_version@,
    {
        self.bios_version.as_str()
    }

    /// System manufacturer.
    pub fn system_manufacturer(&self) -> (res: &str)
        ensures
            res@ == self.system_manufacturer@,
    {
        self.system_manufacturer.as_str()
    }

    /// System product name.
    pub fn system_product(&self) -> (res: &str)
        ensures
            res@ == self.system_product@,
    {
        self.system_product.as_str()
    }

    /// System serial number.
    pub fn system_serial(&self) -> (res: &str)
        ensures
            res@ == self.system_serial@,
    {
        self.system_serial.as_str()
    }

    /// Base board manufacturer.
    pub fn board_manufacturer(&self) -> (res: &str)
        ensures
            res@ == self.board_manufacturer@,
    {
        self.board_manufacturer.as_str()
    }

    /// Base board product name.
    pub fn board_product(&self) -> (res: &str)
        ensures
            res@ == self.board_product@,
    {
        self.board_product.as_str()
    }

    /// Base board serial number.
    pub fn board_serial(&self) -> (res: &str)
        ensures
            res@ == self.board_serial@,
    {
        self.board_serial.as_str()
    }

    /// MAC address of the primary NIC.
    pub fn mac_address(&self) -> (res: MacAddress)
        ensures
            res == self.mac_address,
    {
        self.mac_address
    }
}

/// Serial-alphabet character number `k`.
fn serial_alphabet_char(k: usize) -> (c: char)
    requires
        k < SERIAL_ALPHABET_LEN,
    ensures
        c == serial_char(k as int),
{
    if k < 26 {
        (65u8 + k as u8) as char
    } else {
        (48u8 + (k - 26) as u8) as char
    }
}

/// The serial number whose characters are the serial-alphabet characters at
/// `indices`, in order.
pub fn serial_from_indices(indices: &Vec<usize>) -> (res: String)
    requires
        forall|i: int| 0 <= i < indices.len() ==> #[trigger] indices[i] < SERIAL_ALPHABET_LEN,
    ensures
        res@ == indices@.map_values(|k: usize| serial_char(k as int)),
{
    let mut s = String::new();
    let mut i: usize = 0;
    while i < indices.len()
        invariant
            i <= indices.len(),
            forall|j: int| 0 <= j < indices.len() ==> #[trigger] indices[j] < SERIAL_ALPHABET_LEN,
            s@ == indices@.take(i as int).map_values(|k: usize| serial_char(k as int)),
        decreases indices.len() - i,
    {
        let c = serial_alphabet_char(indices[i]);
        crate::text::push_char(&mut s, c);
        assert(indices@.take(i + 1) =~= indices@.take(i as int).push(indices[i as int]));
        i = i + 1;
    }
    assert(indices@.take(i as int) =~= indices@);
    s
}

/// Every serial-alphabet character is an upper-case letter or a digit.
proof fn lemma_serial_char_in_alphabet(k: int)
    requires
        0 <= k < SERIAL_ALPHABET_LEN,
    ensures
        is_serial_char(serial_char(k)),
{
}

/// A random serial number of `len` characters.
fn random_serial(rng: &mut ThreadRng, len: usize) -> (res: String)
    ensures
        is_serial(res@, len as nat),
{
    let mut indices: Vec<usize> = Vec::new();
    let mut i: usize = 0;
    while i < len
        invariant
            i <= len,
            indices.len() == i,
            forall|j: int| 0 <= j < indices.len() ==> #[trigger] indices[j] < SERIAL_ALPHABET_LEN,
        decreases len - i,
    {
        let k = random_below(rng, SERIAL_ALPHABET_LEN);
        indices.push(k);
        i = i + 1;
    }
    let s = serial_from_indices(&indices);
    assert forall|j: int| 0 <= j < s@.len() implies is_serial_char(#[trigger] s@[j]) by {
        lemma_serial_char_in_alphabet(indices[j] as int);
    }
    s
}

/// A random MAC address under [`MAC_PREFIX`].
fn random_mac(rng: &mut ThreadRng) -> (res: MacAddress)
    ensures
        res.spec_octets()[0] == MAC_PREFIX[0],
        res.spec_octets()[1] == MAC_PREFIX[1],
{
    let c = random_byte(rng);
    let d = random_byte(rng);
    let e = random_byte(rng);
    let f = random_byte(rng);
    MacAddress::new(MAC_PREFIX[0], MAC_PREFIX[1], c, d, e, f)
}

/// The thread-local generator, `rand::rng()`.
#[verifier::external_body]
fn thread_rng() -> ThreadRng {
    rand::rng()
}

/// A uniformly drawn `r` with `0 <= r < bound`: `Rng::random_range(0..bound)`,
/// which panics on an empty range and otherwise samples within it.
#[verifier::external_body]
fn random_below(rng: &mut ThreadRng, bound: usize) -> (r: usize)
    requires
        bound > 0,
    ensures
        r < bound,
{
    rng.random_range(0..bound)
}

/// A uniformly drawn byte: `Rng::random::<u8>()`. Any value may come back.
#[verifier::external_body]
fn random_byte(rng: &mut ThreadRng) -> u8 {
    rng.random::<u8>()
}

/// `s` begins with `prefix`.
pub open spec fn starts_with(s: Seq<char>, prefix: Seq<char>) -> bool {
    s.len() >= prefix.len() && s.take(prefix.len() as int) == prefix
}

/// `t` occurs somewhere in `s`.
pub open spec fn contains_text(s: Seq<char>, t: Seq<char>) -> bool {
    exists|k: int| 0 <= k && k + t.len() <= s.len() && #[trigger] s.subrange(k, k + t.len()) == t
}

/// What makes a machine coherent: a real CPU vendor, a CPU model of that
/// vendor (`Intel(R) ...` for GenuineIntel, `AMD ...` for AuthenticAMD) on a
/// board of a chipset for it (`Z...` for Intel, `X570` for AMD), system and
/// board from one manufacturer, and an AMI BIOS.
pub open spec fn coherent(
    cpu_vendor: Seq<char>,
    cpu_model: Seq<char>,
    bios_vendor: Seq<char>,
    system_manufacturer: Seq<char>,
    board_manufacturer: Seq<char>,
    board_product: Seq<char>,
) -> bool {
    &&& cpu_vendor == "GenuineIntel"@ || cpu_vendor == "AuthenticAMD"@
    &&& cpu_vendor == "GenuineIntel"@ ==> starts_with(cpu_model, "Intel(R) "@) && contains_text(
        board_product,
        "Z"@,
    )
    &&& cpu_vendor == "AuthenticAMD"@ ==> starts_with(cpu_model, "AMD "@) && contains_text(
        board_product,
        "X570"@,
    )
    &&& system_manufacturer == board_manufacturer
    &&& starts_with(bios_vendor, "American Megatrends"@)
}

/// Every predefined machine is coherent, and no two share a CPU model and
/// board; machine 0 is the GIGABYTE Z490 AORUS ELITE with an i7-10700K.
pub proof fn lemma_templates_coherent(i: int, j: int)
    requires
        0 <= i < TEMPLATE_COUNT,
        0 <= j < TEMPLATE_COUNT,
    ensures
        coherent(
            template(i).cpu_vendor,
            template(i).cpu_model,
            template(i).bios_vendor,
            template(i).system_manufacturer,
            template(i).board_manufacturer,
            template(i).board_product,
        ),
        i != j ==> template(i).cpu_model != template(j).cpu_model,
        i != j ==> template(i).board_product != template(j).board_product,
        template(0).cpu_vendor == "GenuineIntel"@,
        template(0).cpu_model == "Intel(R) Core(TM) i7-10700K CPU @ 3.80GHz"@,
        template(0).board_product == "Z490 AORUS ELITE"@,
{
    reveal_strlit("GenuineIntel");
    reveal_strlit("AuthenticAMD");
    reveal_strlit("Intel(R) ");
    reveal_strlit("AMD ");
    reveal_strlit("Z");
    reveal_strlit("X570");
    reveal_strlit("American Megatrends");
    reveal_strlit("Intel(R) Core(TM) i7-10700K CPU @ 3.80GHz");
    reveal_strlit("Intel(R) Core(TM) i9-12900K CPU @ 3.20GHz");
    reveal_strlit("AMD Ryzen 9 5900X 12-Core Processor");
    reveal_strlit("AMD Ryzen 7 5800X 8-Core Processor");
    reveal_strlit("American Megatrends Inc.");
    reveal_strlit("American Megatrends International, LLC.");
    reveal_strlit("Z490 AORUS ELITE");
    reveal_strlit("ROG STRIX Z690-E GAMING WIFI");
    reveal_strlit("MEG X570 UNIFY (MS-7C35)");
    reveal_strlit("X570 AORUS MASTER");
    let t = template(i);
    assert(t.bios_vendor.take(19) =~= "American Megatrends"@);
    assert(starts_with(t.bios_vendor, "American Megatrends"@));
    if i == 0 || i == 1 {
        assert(t.cpu_model.take(9) =~= "Intel(R) "@);
        assert(starts_with(t.cpu_model, "Intel(R) "@));
        if i == 0 {
            assert(t.board_product.subrange(0, 0int + "Z"@.len()) =~= "Z"@);
        } else {
            assert(t.board_product.subrange(10, 10int + "Z"@.len()) =~= "Z"@);
        }
        assert(contains_text(t.board_product, "Z"@));
        assert(t.cpu_vendor != "AuthenticAMD"@) by {
            assert(t.cpu_vendor[0] != "AuthenticAMD"@[0]);
        }
    } else {
        assert(t.cpu_model.take(4) =~= "AMD "@);
        assert(starts_with(t.cpu_model, "AMD "@));
        if i == 2 {
            assert(t.board_product.subrange(4, 4int + "X570"@.len()) =~= "X570"@);
        } else {
            assert(t.board_product.subrange(0, 0int + "X570"@.len()) =~= "X570"@);
        }
        assert(contains_text(t.board_product, "X570"@));
        assert(t.cpu_vendor != "GenuineIntel"@) by {
            assert(t.cpu_vendor[0] != "GenuineIntel"@[0]);
        }
    }
    if i != j {
        let u = template(j);
        assert(t.cpu_model != u.cpu_model) by {
            if t.cpu_model.len() == u.cpu_model.len() {
                assert(t.cpu_model[22] != u.cpu_model[22] || t.cpu_model[10] != u.cpu_model[10]);
            }
        }
        assert(t.board_product != u.board_product) by {
            if t.board_product.len() == u.board_product.len() {
                assert(t.board_product[0] != u.board_product[0]);
            }
        }
    }
}

/// A generated profile is coherent: its CPU model belongs to its CPU vendor
/// and its board's chipset to that CPU, and system and board share a maker.
pub proof fn lemma_generated_profile_coherent(p: HardwareProfile)
    requires
        p.is_generated(),
    ensures
        coherent(
            p.cpu_vendor@,
            p.cpu_model@,
            p.bios_vendor@,
            p.system_manufacturer@,
            p.board_manufacturer@,
            p.board_product@,
        ),
{
    let i = choose|i: int| 0 <= i < TEMPLATE_COUNT && p.matches_template(i);
    lemma_templates_coherent(i, i);
}

/// A generated profile carries one of the two real CPU vendor strings, so the
/// CPUID vendor the guest sees is never a hypervisor's.
pub proof fn lemma_generated_vendor(p: HardwareProfile)
    requires
        p.is_generated(),
    ensures
        p.cpu_vendor@ == "GenuineIntel"@ || p.cpu_vendor@ == "AuthenticAMD"@,
{
}

/// The MAC address of a generated profile is unicast and universally
/// administered, as a real vendor NIC's is.
pub proof fn lemma_generated_mac_is_vendor_unicast(p: HardwareProfile)
    requires
        p.is_generated(),
    ensures
        !p.mac_address.spec_is_multicast(),
        !p.mac_address.spec_is_locally_administered(),
{
    assert(0u8 & 1u8 == 0u8) by (bit_vector);
    assert(0u8 & 2u8 == 0u8) by (bit_vector);
}

/// The generator type of `rand`, carried through opaque.
#[verifier::external_type_specification]
#[verifier::external_body]
pub struct ExThreadRng(ThreadRng);

} // verus!
