use vstd::prelude::*;
use vstd::string::{StrSliceExecFns, StringExecFns};
use crate::args::Args;

verus! {

/// What classification the enumerator reported for one visible port.
pub enum PortClass {
    /// The port is connected over USB.
    Usb {
        /// Vendor id.
        vid: u16,
        /// Product id.
        pid: u16,
        /// Serial number, when the enumerator knew one.
        serial_number: Option<String>,
        /// Manufacturer, when the enumerator knew one.
        manufacturer: Option<String>,
    },
    /// Anything else, or undetermined.
    Unknown,
}

/// One enumerated port: its path and its classification. Produced fresh
/// on every resolution attempt, never cached across reconnects.
pub struct PortInfo {
    /// The path under which the port can be opened.
    pub port_name: String,
    /// How the port is connected.
    pub port_type: PortClass,
}

/// The lower-case hex digit for a value below sixteen.
pub open spec fn hex_digit(n: u16) -> char {
    if n == 0 { '0' } else if n == 1 { '1' } else if n == 2 { '2' } else if n == 3 { '3' }
    else if n == 4 { '4' } else if n == 5 { '5' } else if n == 6 { '6' } else if n == 7 { '7' }
    else if n == 8 { '8' } else if n == 9 { '9' } else if n == 10 { 'a' } else if n == 11 { 'b' }
    else if n == 12 { 'c' } else if n == 13 { 'd' } else if n == 14 { 'e' } else { 'f' }
}

/// A sixteen-bit value as four lower-case hex digits, zero-padded: the
/// form in which vendor and product ids are matched and listed.
pub open spec fn hex4_chars(x: u16) -> Seq<char> {
    seq![
        hex_digit((x >> 12) & 0xf),
        hex_digit((x >> 8) & 0xf),
        hex_digit((x >> 4) & 0xf),
        hex_digit(x & 0xf),
    ]
}

/// One hex digit as a borrowed one-character string; decimal digits
/// are the first ten of them.
pub(crate) fn hex_digit_str(n: u16) -> (r: &'static str)
    requires
        n < 16,
    ensures
        r@ == seq![hex_digit(n)],
{
    proof {
        reveal_strlit("0"); reveal_strlit("1"); reveal_strlit("2"); reveal_strlit("3");
        reveal_strlit("4"); reveal_strlit("5"); reveal_strlit("6"); reveal_strlit("7");
        reveal_strlit("8"); reveal_strlit("9"); reveal_strlit("a"); reveal_strlit("b");
        reveal_strlit("c"); reveal_strlit("d"); reveal_strlit("e"); reveal_strlit("f");
    }
    if n == 0 { "0" } else if n == 1 { "1" } else if n == 2 { "2" } else if n == 3 { "3" }
    else if n == 4 { "4" } else if n == 5 { "5" } else if n == 6 { "6" } else if n == 7 { "7" }
    else if n == 8 { "8" } else if n == 9 { "9" } else if n == 10 { "a" } else if n == 11 { "b" }
    else if n == 12 { "c" } else if n == 13 { "d" } else if n == 14 { "e" } else { "f" }
}

/// Format a sixteen-bit value as four lower-case hex digits.
pub fn hex4(x: u16) -> (s: String)
    ensures
        s@ == hex4_chars(x),
{
    proof {
        assert((x >> 12) & 0xf < 16 && (x >> 8) & 0xf < 16 && (x >> 4) & 0xf < 16 && x & 0xf
            < 16) by (bit_vector);
    }
    let mut s = String::new();
    s.append(hex_digit_str((x >> 12) & 0xf));
    s.append(hex_digit_str((x >> 8) & 0xf));
    s.append(hex_digit_str((x >> 4) & 0xf));
    s.append(hex_digit_str(x & 0xf));
    assert(s@ =~= hex4_chars(x));
    s
}

/// The value of one hex digit, either case; anything else is negative.
pub open spec fn hex_digit_val(c: char) -> int {
    if c == '0' { 0 } else if c == '1' { 1 } else if c == '2' { 2 } else if c == '3' { 3 }
    else if c == '4' { 4 } else if c == '5' { 5 } else if c == '6' { 6 } else if c == '7' { 7 }
    else if c == '8' { 8 } else if c == '9' { 9 }
    else if c == 'a' || c == 'A' { 10 } else if c == 'b' || c == 'B' { 11 }
    else if c == 'c' || c == 'C' { 12 } else if c == 'd' || c == 'D' { 13 }
    else if c == 'e' || c == 'E' { 14 } else if c == 'f' || c == 'F' { 15 }
    else { -1 }
}

/// Every character is a hex digit.
pub open spec fn all_hex(s: Seq<char>) -> bool {
    forall|i: int| 0 <= i < s.len() ==> hex_digit_val(s[i]) >= 0
}

/// The number the digits denote, most significant first.
pub open spec fn hex_value(s: Seq<char>) -> int
    decreases s.len(),
{
    if s.len() == 0 {
        0
    } else {
        hex_value(s.drop_last()) * 16 + hex_digit_val(s.last())
    }
}

/// Sixteen to the given power.
pub open spec fn pow16(n: nat) -> int
    decreases n,
{
    if n == 0 {
        1
    } else {
        16 * pow16((n - 1) as nat)
    }
}

/// The value of a string of hex digits stays under sixteen to its
/// length.
pub proof fn lemma_hex_value_bound(s: Seq<char>)
    requires
        all_hex(s),
    ensures
        0 <= hex_value(s) < pow16(s.len()),
    decreases s.len(),
{
    if s.len() > 0 {
        assert(all_hex(s.drop_last()));
        lemma_hex_value_bound(s.drop_last());
        assert(hex_digit_val(s.last()) <= 15);
    }
}

/// How an id on the command line denotes a 16-bit value: one to four
/// hex digits, either case, zero-padding optional; anything else
/// denotes nothing.
pub open spec fn parse_hex4_spec(s: Seq<char>) -> Option<u16> {
    if 1 <= s.len() <= 4 && all_hex(s) {
        Some(hex_value(s) as u16)
    } else {
        None
    }
}

/// The value of one hex digit, either case; negative for anything else.
fn char_hex_val(c: char) -> (r: i8)
    ensures
        r as int == hex_digit_val(c),
{
    if c == '0' { 0 } else if c == '1' { 1 } else if c == '2' { 2 } else if c == '3' { 3 }
    else if c == '4' { 4 } else if c == '5' { 5 } else if c == '6' { 6 } else if c == '7' { 7 }
    else if c == '8' { 8 } else if c == '9' { 9 }
    else if c == 'a' || c == 'A' { 10 } else if c == 'b' || c == 'B' { 11 }
    else if c == 'c' || c == 'C' { 12 } else if c == 'd' || c == 'D' { 13 }
    else if c == 'e' || c == 'E' { 14 } else if c == 'f' || c == 'F' { 15 }
    else { -1 }
}

/// Parse an id as a 16-bit value: one to four hex digits, either case.
pub fn parse_hex4(s: &str) -> (r: Option<u16>)
    ensures
        r == parse_hex4_spec(s@),
{
    let len = s.unicode_len();
    if len == 0 || len > 4 {
        return None;
    }
    let mut val: u16 = 0;
    let mut i: usize = 0;
    while i < len
        invariant
            len == s@.len(),
            1 <= len <= 4,
            i <= len,
            forall|j: int| 0 <= j < i ==> hex_digit_val(s@[j]) >= 0,
            val as int == hex_value(s@.take(i as int)),
        decreases len - i,
    {
        let c = s.get_char(i);
        let d = char_hex_val(c);
        if d < 0 {
            assert(hex_digit_val(s@[i as int]) < 0);
            return None;
        }
        proof {
            assert(all_hex(s@.take(i as int)));
            lemma_hex_value_bound(s@.take(i as int));
            reveal_with_fuel(pow16, 5);
            assert(pow16(i as nat) <= 4096);
            assert(s@.take(i + 1).drop_last() =~= s@.take(i as int));
            assert(s@.take(i + 1).last() == s@[i as int]);
        }
        val = val * 16 + (d as u16);
        i = i + 1;
    }
    proof {
        assert(s@.take(len as int) =~= s@);
    }
    Some(val)
}

/// A USB port matches the selector when each id that was supplied
/// denotes the port's corresponding value — the product id when given,
/// the vendor id when given, both when both are given — and at least
/// one id was supplied. A port without USB classification never
/// matches.
pub open spec fn selector_matches(args: Args, p: PortInfo) -> bool {
    p.port_type matches PortClass::Usb { vid, pid, .. } && {
        &&& (args.product_id is Some || args.vendor_id is Some)
        &&& (args.product_id matches Some(want) ==> parse_hex4_spec(want@) == Some(pid))
        &&& (args.vendor_id matches Some(want) ==> parse_hex4_spec(want@) == Some(vid))
    }
}

/// Does this port match the selector in `args`?
pub fn port_matches(args: &Args, p: &PortInfo) -> (r: bool)
    ensures
        r == selector_matches(*args, *p),
{
    match &p.port_type {
        PortClass::Usb { vid, pid, .. } => {
            let any = args.product_id.is_some() || args.vendor_id.is_some();
            let pid_ok = match &args.product_id {
                Some(want) => match parse_hex4(want.as_str()) {
                    Some(v) => v == *pid,
                    None => false,
                },
                None => true,
            };
            let vid_ok = match &args.vendor_id {
                Some(want) => match parse_hex4(want.as_str()) {
                    Some(v) => v == *vid,
                    None => false,
                },
                None => true,
            };
            any && pid_ok && vid_ok
        }
        PortClass::Unknown => false,
    }
}

/// The first enumerated port that matches the selector, by index, in
/// enumeration order; none when no port matches.
pub fn find_in_ports(args: &Args, ports: &Vec<PortInfo>) -> (r: Option<usize>)
    ensures
        r matches Some(i) ==> {
            &&& i < ports@.len()
            &&& selector_matches(*args, ports@[i as int])
            &&& forall|j: int| 0 <= j < i ==> !selector_matches(*args, ports@[j])
        },
        r is None ==> forall|j: int|
            0 <= j < ports@.len() ==> !selector_matches(*args, ports@[j]),
    {
    let mut i: usize = 0;
    while i < ports.len()
        invariant
            i <= ports@.len(),
            forall|j: int| 0 <= j < i ==> !selector_matches(*args, ports@[j]),
        decreases ports@.len() - i,
    {
        if port_matches(args, &ports[i]) {
            return Some(i);
        }
        i = i + 1;
    }
    None
}

} // verus!
