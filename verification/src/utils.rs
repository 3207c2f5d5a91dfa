//! Small formatting and response helpers.
//!
//! The helpers avoid heap formatting: callers pass buffers and receive slices
//! into those buffers. The Redfish system documents are fixed strings because
//! only their `PowerState` field varies at runtime.

use vstd::prelude::*;

verus! {

/// Decimal ASCII representation of `n` (most significant digit first, no
/// leading zeros; `0` is `"0"`).
pub open spec fn decimal(n: nat) -> Seq<u8>
    decreases n,
{
    if n < 10 {
        seq![(48 + n) as u8]
    } else {
        decimal(n / 10).push((48 + n % 10) as u8)
    }
}

/// The last `k` digits of `decimal(n)`.
pub open spec fn decimal_tail(n: nat, k: nat) -> Seq<u8> {
    decimal(n).subrange(decimal(n).len() - k, decimal(n).len() as int)
}

/// Numeric value of a string of ASCII decimal digits.
pub open spec fn decimal_value(s: Seq<u8>) -> int
    decreases s.len(),
{
    if s.len() == 0 {
        0
    } else {
        decimal_value(s.drop_last()) * 10 + (s.last() - 48)
    }
}

/// Whether `b` is an ASCII decimal digit.
pub open spec fn is_digit(b: u8) -> bool {
    48 <= b <= 57
}

/// Length of the decimal representation grows by one digit per factor ten.
pub proof fn lemma_decimal_len(n: nat)
    ensures
        decimal(n).len() >= 1,
        n < 10 ==> decimal(n).len() == 1,
        n >= 10 ==> decimal(n).len() == decimal(n / 10).len() + 1,
        n < 10 <==> decimal(n).len() == 1,
    decreases n,
{
    if n >= 10 {
        lemma_decimal_len(n / 10);
    }
}

/// `decimal(n)` is made of digits, has no leading zero unless it is `"0"`,
/// and reads back as `n`.
pub proof fn lemma_decimal_roundtrip(n: nat)
    ensures
        forall|i: int| 0 <= i < decimal(n).len() ==> is_digit(#[trigger] decimal(n)[i]),
        decimal(n).len() > 1 ==> decimal(n)[0] != 48,
        decimal_value(decimal(n)) == n,
    decreases n,
{
    lemma_decimal_len(n);
    if n < 10 {
        assert(decimal(n).drop_last() =~= Seq::<u8>::empty());
        assert(decimal_value(Seq::<u8>::empty()) == 0);
        assert(decimal(n).last() == 48 + n);
    }
    if n >= 10 {
        assert(decimal(n).last() == 48 + n % 10);
        assert(decimal(n).drop_last() =~= decimal(n / 10));
        lemma_decimal_roundtrip(n / 10);
        assert(decimal_value(decimal(n)) == decimal_value(decimal(n / 10)) * 10 + (n % 10));
        assert((n / 10) * 10 + n % 10 == n);
        lemma_decimal_len(n / 10);
        let d = decimal(n);
        assert(d.drop_last() =~= decimal(n / 10));
        assert forall|i: int| 0 <= i < d.len() implies is_digit(#[trigger] d[i]) by {
            if i < d.len() - 1 {
                assert(d[i] == decimal(n / 10)[i]);
            }
        }
        if d.len() > 1 {
            if decimal(n / 10).len() == 1 {
                assert(n / 10 >= 1);
                assert(decimal(n / 10)[0] == 48 + n / 10);
            }
            assert(d[0] == decimal(n / 10)[0]);
        }
    }
}

/// Numbers below `10^k` have at most `k` decimal digits.
proof fn lemma_decimal_len_bound(n: nat, k: nat, p: nat)
    requires
        k >= 1,
        p == pow10(k),
        n < p,
    ensures
        decimal(n).len() <= k,
    decreases k,
{
    lemma_decimal_len(n);
    if n >= 10 {
        assert(k >= 2) by {
            if k == 1 {
                assert(pow10(1) == 10 * pow10(0));
            }
        }
        let q = pow10((k - 1) as nat);
        assert(p == 10 * q);
        assert(n / 10 < q);
        lemma_decimal_len_bound(n / 10, (k - 1) as nat, q);
    }
}

/// Ten to the power `k`.
pub open spec fn pow10(k: nat) -> nat
    decreases k,
{
    if k == 0 { 1 } else { 10 * pow10((k - 1) as nat) }
}

/// Number of decimal digits of `n`.
pub fn decimal_len(n: u32) -> (c: usize)
    ensures
        c == decimal(n as nat).len(),
        1 <= c <= 10,
{
    proof {
        assert(pow10(10) == 10_000_000_000) by {
            reveal_with_fuel(pow10, 11);
        }
        lemma_decimal_len_bound(n as nat, 10, pow10(10));
    }
    let mut t: u32 = n;
    let mut c: usize = 0;
    while t >= 10
        invariant
            c + decimal(t as nat).len() == decimal(n as nat).len(),
            decimal(n as nat).len() <= 10,
        decreases t,
    {
        proof {
            lemma_decimal_len(t as nat);
        }
        t = t / 10;
        c = c + 1;
    }
    proof {
        lemma_decimal_len(t as nat);
    }
    c + 1
}

/// Writes the last `k` digits of `decimal(n)` into `buf[start..start + k]`.
fn put_digits(n: u32, k: usize, buf: &mut [u8], start: usize)
    requires
        k <= decimal(n as nat).len(),
        start + k <= old(buf)@.len(),
    ensures
        final(buf)@.len() == old(buf)@.len(),
        final(buf)@.subrange(start as int, start + k) == decimal_tail(n as nat, k as nat),
        forall|j: int|
            0 <= j < old(buf)@.len() && !(start <= j < start + k) ==> final(buf)@[j] == old(buf)@[j],
{
    let ghost d = decimal(n as nat);
    let ghost dl = d.len();
    let mut m: u32 = n;
    let mut i: usize = 0;
    let ghost mut suffix: Seq<u8> = Seq::empty();
    while i < k
        invariant
            k <= dl,
            dl == d.len(),
            d == decimal(n as nat),
            start + k <= buf.len(),
            buf@.len() == old(buf)@.len(),
            i <= k,
            suffix.len() == i,
            i < dl ==> d == decimal(m as nat) + suffix,
            i < dl ==> decimal(m as nat).len() == dl - i,
            i == dl ==> d == suffix,
            forall|j: int| 0 <= j < i ==> buf@[start + k - i + j] == suffix[j],
            forall|j: int|
                0 <= j < buf@.len() && !(start + k - i <= j < start + k) ==> buf@[j] == old(buf)@[j],
        decreases k - i,
    {
        proof {
            lemma_decimal_len(m as nat);
        }
        let digit = (48 + m % 10) as u8;
        assert(i < k && start + k <= buf@.len());
        let back = k - 1 - i;
        let pos = start + back;
        buf[pos] = digit;
        proof {
            let old_suffix = suffix;
            suffix = seq![digit] + old_suffix;
            if m >= 10 {
                assert(decimal(m as nat) == decimal((m / 10) as nat).push(digit));
                assert(decimal(m as nat) + old_suffix =~= decimal((m / 10) as nat) + suffix);
            } else {
                assert(decimal(m as nat) =~= seq![digit]);
                assert(d =~= suffix);
            }
        }
        m = m / 10;
        i = i + 1;
    }
    assert(buf@.subrange(start as int, start + k) =~= decimal_tail(n as nat, k as nat)) by {
        if k < dl {
            assert(d =~= decimal(m as nat) + suffix);
        }
        assert forall|j: int| 0 <= j < k implies buf@.subrange(start as int, start + k)[j]
            == decimal_tail(n as nat, k as nat)[j] by {
            assert(buf@[start + k - i + j] == suffix[j]);
            assert(d[dl - k + j] == suffix[j]) by {
                if k < dl {
                    assert(d[dl - k + j] == (decimal(m as nat) + suffix)[dl - k + j]);
                }
            }
        }
    }
}

/// Writes `decimal(n)` into `buf`, keeping only the least significant digits
/// that fit; returns the number of bytes written.
fn write_decimal(n: u32, buf: &mut [u8]) -> (k: usize)
    ensures
        k == if decimal(n as nat).len() < old(buf)@.len() { decimal(n as nat).len() } else { old(buf)@.len() },
        final(buf)@ == decimal_tail(n as nat, k as nat) + old(buf)@.subrange(k as int, old(buf)@.len() as int),
{
    let d = decimal_len(n);
    let k = if d < buf.len() { d } else { buf.len() };
    put_digits(n, k, buf, 0);
    assert(buf@ =~= decimal_tail(n as nat, k as nat) + old(buf)@.subrange(k as int, old(buf)@.len() as int)) by {
        assert forall|j: int| 0 <= j < buf@.len() implies buf@[j] == (decimal_tail(n as nat, k as nat) + old(buf)@.subrange(k as int, old(buf)@.len() as int))[j] by {
            if j < k {
                assert(buf@[j] == buf@.subrange(0, k as int)[j]);
            }
        }
    }
    k
}

const ZERO_DIGIT: [u8; 1] = [48];

/// Result of formatting `n` into a buffer of `buf_len` bytes: `"0"` for zero,
/// otherwise the least significant digits of `n` that fit, most significant first.
pub open spec fn ascii_result(n: nat, buf_len: nat) -> Seq<u8> {
    if n == 0 {
        seq![48u8]
    } else {
        let k = if decimal(n).len() < buf_len { decimal(n).len() } else { buf_len };
        decimal_tail(n, k)
    }
}

/// Buffer contents after formatting `n` into `buf`.
pub open spec fn ascii_buffer(n: nat, buf: Seq<u8>) -> Seq<u8> {
    if n == 0 {
        buf
    } else {
        let k = if decimal(n).len() < buf.len() { decimal(n).len() } else { buf.len() };
        decimal_tail(n, k) + buf.subrange(k as int, buf.len() as int)
    }
}

/// Formats a `u16` as decimal ASCII into `buf`.
pub fn itoa(n: u16, buf: &mut [u8]) -> (r: &[u8])
    ensures
        r@ == ascii_result(n as nat, old(buf)@.len()),
        final(buf)@ == ascii_buffer(n as nat, old(buf)@),
{
    if n == 0 {
        return &ZERO_DIGIT;
    }
    let k = write_decimal(n as u32, buf);
    let r: &[u8] = &buf[0..k];
    assert(r@ =~= ascii_result(n as nat, old(buf)@.len()));
    r
}

/// Formats a `u32` as decimal ASCII into `buf`.
///
/// Used for HTTP Range offsets that can exceed the 16-bit helper.
pub fn u32_to_ascii(n: u32, buf: &mut [u8]) -> (r: &[u8])
    ensures
        r@ == ascii_result(n as nat, old(buf)@.len()),
        final(buf)@ == ascii_buffer(n as nat, old(buf)@),
{
    if n == 0 {
        return &ZERO_DIGIT;
    }
    let k = write_decimal(n, buf);
    let r: &[u8] = &buf[0..k];
    assert(r@ =~= ascii_result(n as nat, old(buf)@.len()));
    r
}

/// Formatting into a buffer with room for every digit gives the full decimal
/// representation, which reads back as the formatted number.
pub proof fn lemma_ascii_roundtrip(n: nat, buf_len: nat)
    requires
        buf_len >= decimal(n).len(),
    ensures
        ascii_result(n, buf_len) == decimal(n),
        decimal_value(ascii_result(n, buf_len)) == n,
{
    lemma_decimal_roundtrip(n);
    lemma_decimal_len(n);
    if n == 0 {
        assert(decimal(0) =~= seq![48u8]);
    } else {
        assert(decimal_tail(n, decimal(n).len()) =~= decimal(n));
    }
}

/// IPv4 address as its four octets, most significant first.
#[derive(Debug, Clone, Copy)]
pub struct Ipv4Address {
    /// Octets in network order.
    pub octets: [u8; 4],
}

impl Ipv4Address {
    /// Address `a.b.c.d`.
    pub fn new(a: u8, b: u8, c: u8, d: u8) -> (r: Ipv4Address)
        ensures
            r.octets@ == seq![a, b, c, d],
    {
        let r = Ipv4Address { octets: [a, b, c, d] };
        assert(r.octets@ =~= seq![a, b, c, d]);
        r
    }

    /// The four octets in network order.
    pub fn octets(&self) -> (r: [u8; 4])
        ensures
            r == self.octets,
    {
        self.octets
    }
}

/// Dotted-decimal text of the first `i` octets of `a`, each followed by a dot
/// except the fourth.
pub open spec fn dotted_upto(a: Seq<u8>, i: nat) -> Seq<u8>
    decreases i,
{
    if i == 0 {
        Seq::empty()
    } else {
        dotted_upto(a, (i - 1) as nat) + decimal(a[i - 1] as nat) + if i < 4 {
            seq![46u8]
        } else {
            Seq::empty()
        }
    }
}

/// Dotted-decimal text of an IPv4 address, e.g. `169.254.77.1`.
pub open spec fn dotted_quad(a: Seq<u8>) -> Seq<u8> {
    dotted_upto(a, 4)
}

proof fn lemma_dotted_len(a: Seq<u8>, i: nat)
    requires
        i <= 4,
    ensures
        dotted_upto(a, i).len() <= 4 * i - if i == 4 { 1int } else { 0int },
    decreases i,
{
    if i > 0 {
        lemma_dotted_len(a, (i - 1) as nat);
        assert(pow10(3) == 1000) by {
            reveal_with_fuel(pow10, 4);
        }
        lemma_decimal_len_bound(a[i - 1] as nat, 3, 1000);
    }
}

/// Decimal representations of 16-bit values take at most 5 digits.
pub proof fn lemma_decimal_u16_len(n: nat)
    requires
        n <= u16::MAX,
    ensures
        decimal(n).len() <= 5,
{
    assert(pow10(5) == 100_000) by {
        reveal_with_fuel(pow10, 6);
    }
    lemma_decimal_len_bound(n, 5, pow10(5));
}

/// Decimal representations of 32-bit values take at most 10 digits.
pub proof fn lemma_decimal_u32_len(n: nat)
    requires
        n <= u32::MAX,
    ensures
        decimal(n).len() <= 10,
{
    assert(pow10(10) == 10_000_000_000) by {
        reveal_with_fuel(pow10, 11);
    }
    lemma_decimal_len_bound(n, 10, pow10(10));
}

/// Formats an IPv4 address as dotted decimal into `out`, which must have room
/// for the whole text (at most 15 bytes).
pub fn format_ip(ip: Ipv4Address, out: &mut [u8]) -> (r: &[u8])
    requires
        old(out)@.len() >= dotted_quad(ip.octets@).len(),
    ensures
        r@ == dotted_quad(ip.octets@),
        final(out)@ == dotted_quad(ip.octets@) + old(out)@.subrange(
            dotted_quad(ip.octets@).len() as int,
            old(out)@.len() as int,
        ),
{
    let octets = ip.octets();
    let ghost a = octets@;
    let mut idx: usize = 0;
    let mut i: usize = 0;
    let olen = out.len();
    proof {
        lemma_dotted_len(a, 4);
    }
    while i < 4
        invariant
            a == ip.octets@,
            octets@ == a,
            i <= 4,
            olen == out@.len(),
            idx <= olen,
            idx == dotted_upto(a, i as nat).len(),
            out@.len() == old(out)@.len(),
            old(out)@.len() >= dotted_quad(a).len(),
            out@.subrange(0, idx as int) == dotted_upto(a, i as nat),
            forall|j: int| idx <= j < out@.len() ==> out@[j] == old(out)@[j],
        decreases 4 - i,
    {
        let o = octets[i];
        let t = decimal_len(o as u32);
        proof {
            lemma_dotted_prefix_len(a, (i + 1) as nat);
            assert(dotted_upto(a, (i + 1) as nat) == dotted_upto(a, i as nat) + decimal(a[i as int] as nat)
                + if i + 1 < 4 { seq![46u8] } else { Seq::empty() });
            assert(idx + t + if i != 3 { 1int } else { 0int } == dotted_upto(a, (i + 1) as nat).len());
        }
        put_digits(o as u32, t, out, idx);
        let ghost before = out@;
        let new_idx = idx + t;
        if i != 3 {
            out[new_idx] = 46;
            idx = new_idx + 1;
        } else {
            idx = new_idx;
        }
        proof {
            assert(decimal_tail(o as nat, t as nat) =~= decimal(o as nat));
            assert(out@.subrange(0, idx as int) =~= dotted_upto(a, (i + 1) as nat)) by {
                assert forall|j: int| 0 <= j < idx implies out@[j] == dotted_upto(a, (i + 1) as nat)[j] by {
                    if j < new_idx - t {
                        assert(out@[j] == before[j]);
                    } else if j < new_idx {
                        assert(before.subrange(new_idx - t, new_idx as int)[j - (new_idx - t)] == before[j]);
                    }
                }
            }
        }
        i = i + 1;
    }
    let r: &[u8] = &out[0..idx];
    assert(out@ =~= dotted_quad(a) + old(out)@.subrange(dotted_quad(a).len() as int, old(out)@.len() as int));
    r
}

/// The dotted-decimal text of an address takes at most 15 bytes.
pub proof fn lemma_dotted_quad_len(a: Seq<u8>)
    ensures
        dotted_quad(a).len() <= 15,
{
    lemma_dotted_len(a, 4);
}

proof fn lemma_dotted_prefix_len(a: Seq<u8>, i: nat)
    requires
        1 <= i <= 4,
    ensures
        dotted_upto(a, i).len() <= dotted_quad(a).len(),
    decreases 4 - i,
{
    if i < 4 {
        lemma_dotted_prefix_len(a, i + 1);
    }
}

/// Redfish ComputerSystem resource of a powered-on target.
pub open spec fn system_info_on() -> Seq<char> {
    SYSTEM_INFO_ON@
}

/// Redfish ComputerSystem resource of a powered-off target.
pub open spec fn system_info_off() -> Seq<char> {
    SYSTEM_INFO_OFF@
}

/// Returns the Redfish ComputerSystem JSON matching the current power state.
pub fn dump_system_info(_system_id: &str, power_on: bool) -> (r: &'static str)
    ensures
        r@ == if power_on { system_info_on() } else { system_info_off() },
{
    if power_on {
        SYSTEM_INFO_ON
    } else {
        SYSTEM_INFO_OFF
    }
}

/// Part of the ComputerSystem resource before the PowerState value.
pub const SYSTEM_INFO_HEAD: &'static str = r##"{
        "@odata.type": "#ComputerSystem.v1_15_0.ComputerSystem",
        "@odata.id": "/redfish/v1/Systems/1",
        "Id": "1",
        "Name": "Main System",
        "PowerState": ""##;

/// Part of the ComputerSystem resource after the PowerState value.
pub const SYSTEM_INFO_TAIL: &'static str = r##"",
        "Actions": {
            "#ComputerSystem.Reset": {
                "target": "/redfish/v1/Systems/1/Actions/ComputerSystem.Reset",
                "ResetType@Redfish.AllowableValues": [
                    "On",
                    "ForceOff"
                ]
            }
        }
    }"##;

/// The ComputerSystem resource with PowerState `state`.
pub open spec fn system_info_json(state: Seq<char>) -> Seq<char> {
    SYSTEM_INFO_HEAD@ + state + SYSTEM_INFO_TAIL@
}

/// The two resources differ only in their PowerState value.
pub proof fn lemma_system_info_power_state()
    ensures
        system_info_on() == system_info_json("On"@),
        system_info_off() == system_info_json("Off"@),
{
    reveal_strlit(r##"{
        "@odata.type": "#ComputerSystem.v1_15_0.ComputerSystem",
        "@odata.id": "/redfish/v1/Systems/1",
        "Id": "1",
        "Name": "Main System",
        "PowerState": "On",
        "Actions": {
            "#ComputerSystem.Reset": {
                "target": "/redfish/v1/Systems/1/Actions/ComputerSystem.Reset",
                "ResetType@Redfish.AllowableValues": [
                    "On",
                    "ForceOff"
                ]
            }
        }
    }"##);
    reveal_strlit(r##"{
        "@odata.type": "#ComputerSystem.v1_15_0.ComputerSystem",
        "@odata.id": "/redfish/v1/Systems/1",
        "Id": "1",
        "Name": "Main System",
        "PowerState": "Off",
        "Actions": {
            "#ComputerSystem.Reset": {
                "target": "/redfish/v1/Systems/1/Actions/ComputerSystem.Reset",
                "ResetType@Redfish.AllowableValues": [
                    "On",
                    "ForceOff"
                ]
            }
        }
    }"##);
    reveal_strlit(r##"{
        "@odata.type": "#ComputerSystem.v1_15_0.ComputerSystem",
        "@odata.id": "/redfish/v1/Systems/1",
        "Id": "1",
        "Name": "Main System",
        "PowerState": ""##);
    reveal_strlit(r##"",
        "Actions": {
            "#ComputerSystem.Reset": {
                "target": "/redfish/v1/Systems/1/Actions/ComputerSystem.Reset",
                "ResetType@Redfish.AllowableValues": [
                    "On",
                    "ForceOff"
                ]
            }
        }
    }"##);
    reveal_strlit("On");
    reveal_strlit("Off");
    assert(system_info_on() =~= system_info_json("On"@));
    assert(system_info_off() =~= system_info_json("Off"@));
}

/// Pre-rendered Redfish ComputerSystem resource for an on target.
pub const SYSTEM_INFO_ON: &'static str = r##"{
        "@odata.type": "#ComputerSystem.v1_15_0.ComputerSystem",
        "@odata.id": "/redfish/v1/Systems/1",
        "Id": "1",
        "Name": "Main System",
        "PowerState": "On",
        "Actions": {
            "#ComputerSystem.Reset": {
                "target": "/redfish/v1/Systems/1/Actions/ComputerSystem.Reset",
                "ResetType@Redfish.AllowableValues": [
                    "On",
                    "ForceOff"
                ]
            }
        }
    }"##;

/// Pre-rendered Redfish ComputerSystem resource for an off target.
pub const SYSTEM_INFO_OFF: &'static str = r##"{
        "@odata.type": "#ComputerSystem.v1_15_0.ComputerSystem",
        "@odata.id": "/redfish/v1/Systems/1",
        "Id": "1",
        "Name": "Main System",
        "PowerState": "Off",
        "Actions": {
            "#ComputerSystem.Reset": {
                "target": "/redfish/v1/Systems/1/Actions/ComputerSystem.Reset",
                "ResetType@Redfish.AllowableValues": [
                    "On",
                    "ForceOff"
                ]
            }
        }
    }"##;

/// Bytes of an ASCII character sequence.
pub open spec fn ascii(s: Seq<char>) -> Seq<u8> {
    s.map_values(|c: char| c as u8)
}

/// Appends `s` to `v`.
pub fn extend_bytes(v: &mut Vec<u8>, s: &[u8])
    ensures
        final(v)@ == old(v)@ + s@,
{
    let mut i: usize = 0;
    while i < s.len()
        invariant
            i <= s@.len(),
            v@ == old(v)@ + s@.subrange(0, i as int),
        decreases s@.len() - i,
    {
        v.push(s[i]);
        i = i + 1;
        assert(v@ =~= old(v)@ + s@.subrange(0, i as int));
    }
    assert(s@.subrange(0, s@.len() as int) =~= s@);
}

/// The bytes of an ASCII string.
pub fn ascii_bytes(s: &str) -> (r: &[u8])
    requires
        vstd::string::is_ascii(s),
    ensures
        r@ == ascii(s@),
{
    proof {
        vstd::string::is_ascii_spec_bytes(s);
    }
    let r = s.as_bytes();
    assert(r@ =~= ascii(s@));
    r
}

/// Whether `h[i..i + 4]` is the blank line `\r\n\r\n` that ends an HTTP header.
pub open spec fn blank_line_at(h: Seq<u8>, i: int) -> bool {
    h[i] == 13 && h[i + 1] == 10 && h[i + 2] == 13 && h[i + 3] == 10
}

/// Position of the first `\r\n\r\n` in `h` at or after `from`, or -1.
pub open spec fn find_blank_line(h: Seq<u8>, from: int) -> int
    decreases h.len() - from,
{
    if from < 0 || from + 4 > h.len() {
        -1
    } else if blank_line_at(h, from) {
        from
    } else {
        find_blank_line(h, from + 1)
    }
}

pub proof fn lemma_find_blank_line(h: Seq<u8>, from: int)
    requires
        0 <= from,
    ensures
        find_blank_line(h, from) == -1 || (from <= find_blank_line(h, from) && find_blank_line(h, from) + 4
            <= h.len() && blank_line_at(h, find_blank_line(h, from))),
        find_blank_line(h, from) == -1 ==> forall|i: int| from <= i && i + 4 <= h.len() ==> !blank_line_at(h, i),
    decreases h.len() - from,
{
    if from + 4 <= h.len() && !blank_line_at(h, from) {
        lemma_find_blank_line(h, from + 1);
    }
}

/// Position of the first `\r\n\r\n` in the first `filled` bytes of `h`, or -1.
pub fn find_header_end(h: &[u8], filled: usize) -> (r: i64)
    requires
        filled <= h@.len(),
        filled <= i64::MAX,
    ensures
        r == find_blank_line(h@.subrange(0, filled as int), 0),
{
    let ghost hs = h@.subrange(0, filled as int);
    if filled < 4 {
        return -1;
    }
    let mut i: usize = 0;
    while filled - i >= 4
        invariant
            filled <= h@.len(),
            filled <= i64::MAX,
            i <= filled,
            hs == h@.subrange(0, filled as int),
            find_blank_line(hs, 0) == find_blank_line(hs, i as int),
        decreases filled - i,
    {
        if h[i] == 13 && h[i + 1] == 10 && h[i + 2] == 13 && h[i + 3] == 10 {
            return i as i64;
        }
        i = i + 1;
    }
    -1
}


} // verus!
