//! Wake-on-LAN: reading and writing MAC addresses, building the magic
//! packet, and choosing the address it is sent to.

use vstd::prelude::*;

use crate::config::Config;
use crate::error::LgtvctlError;
use crate::text::{
    decimal, has_char, hex_digit_check, hex_digit_value, hex_upper, hex_upper_char, hex_value, is_blank,
    is_hex_digit, owned, push_char, push_decimal, trim, trimmed,
};

verus! {

/// The broadcast address used when none is configured.
pub const DEFAULT_WOL_BROADCAST: &'static str = "255.255.255.255";

/// The UDP port a magic packet goes to when the address names none.
pub const DEFAULT_WOL_PORT: u16 = 9;

/// A separator that may stand between the hex digits of a MAC address.
pub open spec fn is_mac_separator(c: char) -> bool {
    c == ':' || c == '-' || c == '.'
}

/// The characters of `s` without separators.
pub open spec fn compact(s: Seq<char>) -> Seq<char>
    decreases s.len(),
{
    if s.len() == 0 {
        Seq::empty()
    } else if is_mac_separator(s.last()) {
        compact(s.drop_last())
    } else {
        compact(s.drop_last()).push(s.last())
    }
}

/// Twelve hex digits: the text of a MAC address once separators are dropped.
pub open spec fn is_mac_digits(c: Seq<char>) -> bool {
    &&& c.len() == 12
    &&& forall|i: int| 0 <= i < 12 ==> is_hex_digit(#[trigger] c[i])
}

/// Text that `parse_mac` accepts.
pub open spec fn is_mac_text(s: Seq<char>) -> bool {
    is_mac_digits(compact(s))
}

/// The byte written by the two hex digits at `2 * i` and `2 * i + 1`.
pub open spec fn mac_byte(c: Seq<char>, i: int) -> u8 {
    (hex_value(c[2 * i]) * 16 + hex_value(c[2 * i + 1])) as u8
}

/// The six bytes that twelve hex digits write.
pub open spec fn mac_bytes(c: Seq<char>) -> Seq<u8> {
    Seq::new(6, |i: int| mac_byte(c, i))
}

/// The two upper-case hex digits of a byte.
pub open spec fn hex_pair(b: u8) -> Seq<char> {
    seq![hex_upper((b / 16) as nat), hex_upper((b % 16) as nat)]
}

/// Bytes written as upper-case hex pairs joined by `:`.
pub open spec fn mac_text(m: Seq<u8>) -> Seq<char>
    decreases m.len(),
{
    if m.len() == 0 {
        Seq::empty()
    } else if m.len() == 1 {
        hex_pair(m[0])
    } else {
        mac_text(m.drop_last()) + seq![':'] + hex_pair(m.last())
    }
}

/// The hex digits of bytes, two per byte, with no separators.
pub open spec fn hex_digits(m: Seq<u8>) -> Seq<char>
    decreases m.len(),
{
    if m.len() == 0 {
        Seq::empty()
    } else {
        hex_digits(m.drop_last()) + hex_pair(m.last())
    }
}

proof fn lemma_hex_upper(d: nat)
    requires
        d < 16,
    ensures
        is_hex_digit(hex_upper(d)),
        !is_mac_separator(hex_upper(d)),
        hex_value(hex_upper(d)) == d,
{
}

proof fn lemma_compact_concat(a: Seq<char>, b: Seq<char>)
    ensures
        compact(a + b) == compact(a) + compact(b),
    decreases b.len(),
{
    if b.len() == 0 {
        assert(a + b =~= a);
        assert(compact(a) + compact(b) =~= compact(a));
    } else {
        assert((a + b).drop_last() =~= a + b.drop_last());
        assert((a + b).last() == b.last());
        lemma_compact_concat(a, b.drop_last());
        if is_mac_separator(b.last()) {
        } else {
            assert(compact(a) + compact(b.drop_last()).push(b.last()) =~= (compact(a) + compact(
                b.drop_last(),
            )).push(b.last()));
        }
    }
}

proof fn lemma_compact_hex_pair(b: u8)
    ensures
        compact(hex_pair(b)) == hex_pair(b),
{
    lemma_hex_upper((b / 16) as nat);
    lemma_hex_upper((b % 16) as nat);
    let p = hex_pair(b);
    assert(p.drop_last().drop_last() =~= Seq::<char>::empty());
    assert(p.drop_last() =~= seq![p[0]]);
    assert(compact(p.drop_last()) =~= compact(p.drop_last().drop_last()).push(p[0]));
    assert(compact(p) =~= compact(p.drop_last()).push(p[1]));
}

proof fn lemma_compact_mac_text(m: Seq<u8>)
    requires
        m.len() >= 1,
    ensures
        compact(mac_text(m)) == hex_digits(m),
    decreases m.len(),
{
    if m.len() == 1 {
        lemma_compact_hex_pair(m[0]);
        assert(m.drop_last().len() == 0);
        assert(hex_digits(m.drop_last()) =~= Seq::<char>::empty());
        assert(hex_digits(m) =~= hex_pair(m[0]));
    } else {
        lemma_compact_mac_text(m.drop_last());
        let left = mac_text(m.drop_last());
        lemma_compact_concat(left, seq![':']);
        lemma_compact_concat(left + seq![':'], hex_pair(m.last()));
        lemma_compact_hex_pair(m.last());
        let sep = seq![':'];
        assert(sep.drop_last() =~= Seq::<char>::empty());
        assert(sep.last() == ':');
        assert(compact(Seq::<char>::empty()) =~= Seq::<char>::empty());
        assert(compact(sep) =~= Seq::<char>::empty());
        assert(compact(left) + compact(sep) =~= compact(left));
    }
}

proof fn lemma_hex_digits_index(m: Seq<u8>)
    ensures
        hex_digits(m).len() == 2 * m.len(),
        forall|i: int|
            0 <= i < m.len() ==> #[trigger] hex_digits(m)[2 * i] == hex_upper((m[i] / 16) as nat)
                && hex_digits(m)[2 * i + 1] == hex_upper((m[i] % 16) as nat),
    decreases m.len(),
{
    if m.len() > 0 {
        lemma_hex_digits_index(m.drop_last());
        assert forall|i: int| 0 <= i < m.len() implies #[trigger] hex_digits(m)[2 * i]
            == hex_upper((m[i] / 16) as nat) && hex_digits(m)[2 * i + 1] == hex_upper(
            (m[i] % 16) as nat,
        ) by {
            let prev = hex_digits(m.drop_last());
            assert(hex_digits(m) == prev + hex_pair(m.last()));
            if i < m.len() - 1 {
                assert(m.drop_last()[i] == m[i]);
                assert(prev[2 * i] == hex_upper((m[i] / 16) as nat));
            } else {
                assert(prev.len() == 2 * i);
            }
        }
    }
}

/// Writing a MAC address and reading it back gives the same address:
/// `format_mac` writes text that `parse_mac` accepts, and it reads the bytes
/// that were written.
pub proof fn mac_text_round_trip(m: Seq<u8>)
    requires
        m.len() == 6,
    ensures
        is_mac_text(mac_text(m)),
        mac_bytes(compact(mac_text(m))) == m,
{
    lemma_compact_mac_text(m);
    lemma_hex_digits_index(m);
    let c = hex_digits(m);
    assert forall|i: int| 0 <= i < 12 implies is_hex_digit(#[trigger] c[i]) by {
        let k = i / 2;
        assert(i == 2 * k || i == 2 * k + 1);
        assert(c[2 * k] == hex_upper((m[k] / 16) as nat));
        lemma_hex_upper((m[k] / 16) as nat);
        lemma_hex_upper((m[k] % 16) as nat);
    }
    assert forall|i: int| 0 <= i < 6 implies #[trigger] mac_bytes(c)[i] == m[i] by {
        assert(c[2 * i] == hex_upper((m[i] / 16) as nat));
        lemma_hex_upper((m[i] / 16) as nat);
        lemma_hex_upper((m[i] % 16) as nat);
    }
    assert(mac_bytes(c) =~= m);
}

/// The magic packet for a MAC address: six bytes `0xFF`, then the address
/// sixteen times.
pub open spec fn magic_packet_spec(mac: Seq<u8>) -> Seq<u8> {
    Seq::new(102, |i: int| if i < 6 { 0xFFu8 } else { mac[(i - 6) % 6] })
}

/// Reads a MAC address such as `AA:BB:CC:DD:EE:FF`, `aa-bb-cc-dd-ee-ff` or
/// `aabb.ccdd.eeff`: separators `:`, `-` and `.` are dropped, and the rest must
/// be exactly twelve hex digits. Anything else is `InvalidMac` with the text.
pub fn parse_mac(value: &str) -> (r: Result<[u8; 6], LgtvctlError>)
    ensures
        r is Ok <==> is_mac_text(value@),
        r matches Ok(m) ==> m@ == mac_bytes(compact(value@)),
        r matches Err(e) ==> e matches LgtvctlError::InvalidMac(t) && t@ == value@,
{
    let n = value.unicode_len();
    let mut digits: Vec<char> = Vec::new();
    let mut i: usize = 0;
    assert(value@.subrange(0, 0) =~= Seq::<char>::empty());
    while i < n
        invariant
            n == value@.len(),
            i <= n,
            digits@ == compact(value@.subrange(0, i as int)),
        decreases n - i,
    {
        let c = value.get_char(i);
        assert(value@.subrange(0, i + 1).drop_last() =~= value@.subrange(0, i as int));
        assert(value@.subrange(0, i + 1).last() == c);
        if !(c == ':' || c == '-' || c == '.') {
            digits.push(c);
        }
        i = i + 1;
    }
    assert(value@.subrange(0, n as int) =~= value@);
    if digits.len() != 12 {
        return Err(LgtvctlError::InvalidMac(owned(value)));
    }
    let mut k: usize = 0;
    while k < 12
        invariant
            digits@ == compact(value@),
            digits@.len() == 12,
            k <= 12,
            forall|j: int| 0 <= j < k ==> is_hex_digit(#[trigger] digits@[j]),
        decreases 12 - k,
    {
        if !hex_digit_check(digits[k]) {
            return Err(LgtvctlError::InvalidMac(owned(value)));
        }
        k = k + 1;
    }
    let mut mac: [u8; 6] = [0u8; 6];
    let mut b: usize = 0;
    while b < 6
        invariant
            digits@ == compact(value@),
            is_mac_digits(digits@),
            b <= 6,
            forall|j: int| 0 <= j < b ==> mac@[j] == #[trigger] mac_byte(digits@, j),
        decreases 6 - b,
    {
        let hi = hex_digit_value(digits[2 * b]);
        let lo = hex_digit_value(digits[2 * b + 1]);
        mac[b] = hi * 16 + lo;
        b = b + 1;
    }
    assert(mac@ =~= mac_bytes(digits@));
    Ok(mac)
}

/// The magic packet that wakes the device with the given MAC address.
pub fn magic_packet(mac: [u8; 6]) -> (p: [u8; 102])
    ensures
        p@ == magic_packet_spec(mac@),
{
    let mut packet: [u8; 102] = [0xFFu8; 102];
    let mut k: usize = 6;
    while k < 102
        invariant
            6 <= k <= 102,
            forall|j: int| 0 <= j < 6 ==> packet@[j] == 0xFFu8,
            forall|j: int| 6 <= j < k ==> packet@[j] == mac@[(j - 6) % 6],
        decreases 102 - k,
    {
        packet[k] = mac[(k - 6) % 6];
        k = k + 1;
    }
    assert(packet@ =~= magic_packet_spec(mac@));
    packet
}

/// Writes a MAC address as `AA:BB:CC:DD:EE:FF`.
pub fn format_mac(mac: [u8; 6]) -> (s: String)
    ensures
        s@ == mac_text(mac@),
{
    let mut s = String::new();
    let mut i: usize = 0;
    assert(mac@.subrange(0, 0) =~= Seq::<u8>::empty());
    while i < 6
        invariant
            i <= 6,
            s@ == mac_text(mac@.subrange(0, i as int)),
        decreases 6 - i,
    {
        let byte = mac[i];
        assert(mac@.subrange(0, i + 1).drop_last() =~= mac@.subrange(0, i as int));
        assert(mac@.subrange(0, i + 1).last() == byte);
        if i > 0 {
            push_char(&mut s, ':');
        }
        push_char(&mut s, hex_upper_char(byte / 16));
        push_char(&mut s, hex_upper_char(byte % 16));
        assert(s@ =~= mac_text(mac@.subrange(0, i + 1)));
        i = i + 1;
    }
    assert(mac@.subrange(0, 6) =~= mac@);
    s
}

/// The text of the address a magic packet is sent to: the configured
/// broadcast address (or `255.255.255.255`) trimmed, with port 9 added when
/// it names no port.
pub open spec fn wol_target_text(value: Option<Seq<char>>) -> Seq<char> {
    let host = trimmed(
        match value {
            Some(v) => v,
            None => "255.255.255.255"@,
        },
    );
    if host.contains(':') {
        host
    } else {
        host + seq![':'] + decimal(DEFAULT_WOL_PORT as nat)
    }
}

/// The socket address text for Wake-on-LAN (see `wol_target_text`); the
/// caller reads it as a socket address.
pub fn wol_target(value: Option<&str>) -> (r: String)
    ensures
        r@ == wol_target_text(
            match value {
                Some(v) => Some(v@),
                None => None,
            },
        ),
{
    let raw = match value {
        Some(v) => v,
        None => DEFAULT_WOL_BROADCAST,
    };
    let host = trim(raw);
    let mut target = owned(host);
    if !has_char(host, ':') {
        push_char(&mut target, ':');
        push_decimal(&mut target, DEFAULT_WOL_PORT as u64);
    }
    target
}

/// What waking the TV sends: the packet, the address text it goes to, and the
/// MAC address as reported back.
pub struct WakePlan {
    /// The MAC address written as `AA:BB:CC:DD:EE:FF`.
    pub mac: String,
    /// The magic packet.
    pub packet: [u8; 102],
    /// The socket address text the packet is sent to.
    pub target: String,
}

/// Prepares Wake-on-LAN from the configuration: `MissingMac` without a MAC
/// address, `InvalidMac` when it cannot be read, else the packet for it and
/// the target address.
pub fn prepare_wake(config: &Config) -> (r: Result<WakePlan, LgtvctlError>)
    ensures
        config.mac is None || is_blank(config.mac->0@) ==> r == Err::<WakePlan, LgtvctlError>(
            LgtvctlError::MissingMac,
        ),
        config.mac is Some && !is_blank(config.mac->0@) ==> {
            let m = config.mac->0;
            let digits = compact(m@);
            &&& r is Ok <==> is_mac_digits(digits)
            &&& r matches Ok(plan) ==> {
                &&& plan.packet@ == magic_packet_spec(mac_bytes(digits))
                &&& plan.mac@ == mac_text(mac_bytes(digits))
                &&& plan.target@ == wol_target_text(
                    match config.wol_broadcast {
                        Some(w) => Some(w@),
                        None => None,
                    },
                )
            }
            &&& r matches Err(e) ==> e matches LgtvctlError::InvalidMac(t) && t@ == m@
        },
{
    let raw = config.require_mac()?;
    let mac = parse_mac(raw)?;
    let packet = magic_packet(mac);
    let target = match &config.wol_broadcast {
        Some(w) => wol_target(Some(w.as_str())),
        None => wol_target(None),
    };
    Ok(WakePlan { mac: format_mac(mac), packet, target })
}

} // verus!
