//! Recognizing the AE-5 among the sound cards the kernel lists.

use vstd::prelude::*;
use vstd::string::*;

use crate::text;
use crate::text::{parse_unsigned_text, push_hex4, push_str, starts_with};

verus! {

/// Creative's PCI vendor id.
pub const CREATIVE_VENDOR_ID: u16 = 0x1102;

/// The PCI device id of the CA0132-based Sound Blaster cards.
pub const AE5_DEVICE_ID: u16 = 0x0012;

/// The PCI subsystem id of the audited AE-5 revision.
pub const AE5_SUBSYSTEM_ID: u16 = 0x0051;

/// One AE-5 card as the kernel and ALSA describe it.
#[derive(Clone, Debug, Eq, PartialEq)]
pub struct Ae5Device {
    pub card_index: i32,
    pub alsa_name: String,
    pub alsa_long_name: String,
    pub codec_name: Option<String>,
    pub vendor_id: u16,
    pub device_id: u16,
    pub subsystem_vendor_id: u16,
    pub subsystem_device_id: u16,
}

/// Two ids rendered as `vvvv:dddd` in lower-case hexadecimal.
pub open spec fn id_pair_text(a: u16, b: u16) -> Seq<char> {
    text::hex4(a) + ":"@ + text::hex4(b)
}

/// Renders two ids as `vvvv:dddd`.
fn id_pair(a: u16, b: u16) -> (r: String)
    ensures
        r@ == id_pair_text(a, b),
{
    let mut s = String::new();
    push_hex4(&mut s, a);
    push_str(&mut s, ":");
    push_hex4(&mut s, b);
    s
}

impl Ae5Device {
    /// The PCI vendor and device id, as `1102:0012`.
    pub fn pci_id(&self) -> (r: String)
        ensures
            r@ == id_pair_text(self.vendor_id, self.device_id),
    {
        id_pair(self.vendor_id, self.device_id)
    }

    /// The PCI subsystem vendor and device id, as `1102:0051`.
    pub fn subsystem_id(&self) -> (r: String)
        ensures
            r@ == id_pair_text(self.subsystem_vendor_id, self.subsystem_device_id),
    {
        id_pair(self.subsystem_vendor_id, self.subsystem_device_id)
    }
}

/// The card index a `/sys/class/sound` entry names: `card` followed by at
/// least one decimal digit and nothing else, with a value that fits an `i32`.
pub open spec fn card_index_of(name: Seq<char>) -> Option<nat> {
    let rest = name.subrange(4, name.len() as int);
    if text::has_prefix(name, "card"@) && rest.len() > 0 && text::all_digits(rest) {
        text::parse_unsigned(rest, i32::MAX as nat)
    } else {
        None
    }
}

/// The card index an ALSA card directory name carries, if it is one.
pub fn parse_card_index(name: &str) -> (r: Option<i32>)
    ensures
        match card_index_of(name@) {
            Some(v) => r == Some(v as i32),
            None => r is None,
        },
{
    proof {
        reveal_strlit("card");
    }
    if !starts_with(name, "card") {
        return None;
    }
    let n = name.unicode_len();
    let rest = name.substring_char(4, n);
    assert(rest@ =~= name@.subrange(4, name@.len() as int));
    if n == 4 {
        return None;
    }
    let mut i: usize = 0;
    while i < n - 4
        invariant
            n == name@.len(),
            4 < n,
            rest@.len() == n - 4,
            rest@ == name@.subrange(4, name@.len() as int),
            i <= n - 4,
            forall|j: int| 0 <= j < i ==> (#[trigger] text::digit_value(rest@[j])) is Some,
        decreases n - 4 - i,
    {
        let c = rest.get_char(i);
        if !('0' <= c && c <= '9') {
            assert(text::digit_value(rest@[i as int]) is None);
            assert(!text::all_digits(name@.subrange(4, name@.len() as int)));
            return None;
        }
        assert(text::digit_value(c) is Some);
        i += 1;
    }
    match parse_unsigned_text(rest, 2147483647) {
        Some(v) => Some(v as i32),
        None => None,
    }
}

/// The ids of the audited AE-5 revision.
pub open spec fn is_ae5_ids(vendor_id: u16, device_id: u16, subsystem_vendor_id: u16, subsystem_device_id: u16) -> bool {
    vendor_id == CREATIVE_VENDOR_ID && device_id == AE5_DEVICE_ID && subsystem_vendor_id
        == CREATIVE_VENDOR_ID && subsystem_device_id == AE5_SUBSYSTEM_ID
}

/// Whether the PCI ids are those of the audited AE-5 revision.
pub fn is_supported_ae5(vendor_id: u16, device_id: u16, subsystem_vendor_id: u16, subsystem_device_id: u16) -> (r: bool)
    ensures
        r == is_ae5_ids(vendor_id, device_id, subsystem_vendor_id, subsystem_device_id),
{
    vendor_id == CREATIVE_VENDOR_ID && device_id == AE5_DEVICE_ID && subsystem_vendor_id
        == CREATIVE_VENDOR_ID && subsystem_device_id == AE5_SUBSYSTEM_ID
}

/// The decimal rendering of a number is all digits and denotes it.
proof fn lemma_decimal_digits(n: nat)
    ensures
        text::decimal(n).len() > 0,
        text::all_digits(text::decimal(n)),
        text::digits_value(text::decimal(n)) == n,
    decreases n,
{
    let d = text::decimal(n);
    if n < 10 {
        assert(d == seq![text::digit_char(n)]);
        assert(d.drop_last() =~= Seq::<char>::empty());
        assert(text::digit_value(text::digit_char(n)) == Some(n));
        assert(d.last() == text::digit_char(n));
        assert(text::digits_value(d.drop_last()) == 0);
        assert(text::digits_value(d) == text::digits_value(d.drop_last()) * 10 + n);
    } else {
        lemma_decimal_digits(n / 10);
        let prefix = text::decimal(n / 10);
        assert(d == prefix.push(text::digit_char(n % 10)));
        assert(d.drop_last() =~= prefix);
        assert(text::digit_value(text::digit_char(n % 10)) == Some((n % 10) as nat));
        assert forall|i: int| 0 <= i < d.len() implies (#[trigger] text::digit_value(d[i])) is Some by {
            if i < prefix.len() {
                assert(d[i] == prefix[i]);
            }
        }
        assert(d.last() == text::digit_char(n % 10));
        assert(text::digits_value(d) == text::digits_value(prefix) * 10 + (n % 10));
        assert((n / 10) * 10 + n % 10 == n);
    }
}

/// Every card directory the kernel creates, `card` and the card's number,
/// is recognized as that card.
pub proof fn lemma_card_name_round_trip(n: nat)
    requires
        n <= i32::MAX,
    ensures
        card_index_of("card"@ + text::decimal(n)) == Some(n),
{
    reveal_strlit("card");
    lemma_decimal_digits(n);
    let name = "card"@ + text::decimal(n);
    assert(name.subrange(0, 4) =~= "card"@);
    assert(name.subrange(4, name.len() as int) =~= text::decimal(n));
    assert(text::decimal(n)[0] != '+') by {
        assert(text::digit_value(text::decimal(n)[0]) is Some);
    }
}

} // verus!
