use vstd::prelude::*;
use vstd::string::StringExecFns;
use crate::ports::{PortClass, PortInfo, hex_digit, hex_digit_str, hex4_chars, hex4};

verus! {

/// The decimal digits of a number, most significant first.
pub open spec fn dec_chars(n: nat) -> Seq<char>
    decreases n,
{
    if n < 10 {
        seq![hex_digit(n as u16)]
    } else {
        dec_chars(n / 10) + seq![hex_digit((n % 10) as u16)]
    }
}

/// Format a number in decimal.
pub fn fmt_usize(n: usize) -> (s: String)
    ensures
        s@ == dec_chars(n as nat),
{
    let mut m: usize = n / 10;
    let mut s = String::from_str(hex_digit_str((n % 10) as u16));
    while m > 0
        invariant
            m > 0 ==> dec_chars(n as nat) == dec_chars(m as nat) + s@,
            m == 0 ==> dec_chars(n as nat) == s@,
        decreases m,
    {
        let d = (m % 10) as u16;
        let next = m / 10;
        let prefixed = String::from_str(hex_digit_str(d)).concat(s.as_str());
        proof {
            if next > 0 {
                assert(dec_chars(m as nat) + s@ =~= dec_chars(next as nat) + prefixed@);
            } else {
                assert(dec_chars(m as nat) + s@ =~= prefixed@);
            }
        }
        s = prefixed;
        m = next;
    }
    s
}

/// A string the enumerator may not have known, listed as `N/A` then.
pub open spec fn opt_chars(o: Option<String>) -> Seq<char> {
    match o {
        Some(s) => s@,
        None => "N/A"@,
    }
}

/// The listing's first line: how many ports were found.
pub open spec fn header_chars(n: nat) -> Seq<char> {
    if n == 0 {
        "No ports found."@
    } else if n == 1 {
        "Found 1 port:"@
    } else {
        "Found "@ + dec_chars(n) + " ports:"@
    }
}

/// The block of lines for one port: its 1-based index and path, then
/// its classification.
pub open spec fn port_lines(idx: nat, p: PortInfo) -> Seq<Seq<char>> {
    let head = dec_chars(idx) + ". "@ + p.port_name@;
    match p.port_type {
        PortClass::Usb { vid, pid, serial_number, manufacturer } => seq![
            head,
            "   Type: USB"@,
            "   VID: "@ + hex4_chars(vid) + " PID: "@ + hex4_chars(pid),
            "   Serial Number: "@ + opt_chars(serial_number),
            "   Manufacturer: "@ + opt_chars(manufacturer),
        ],
        PortClass::Unknown => seq![head, "   Type: Unknown"@],
    }
}

/// The blocks for the ports from position `i` on, indices 1-based.
pub open spec fn ports_lines_from(ports: Seq<PortInfo>, i: int) -> Seq<Seq<char>>
    decreases ports.len() - i,
{
    if i < 0 || i >= ports.len() {
        Seq::empty()
    } else {
        port_lines((i + 1) as nat, ports[i]) + ports_lines_from(ports, i + 1)
    }
}

/// The whole listing: the header, then one block per port.
pub open spec fn listing_chars(ports: Seq<PortInfo>) -> Seq<Seq<char>> {
    seq![header_chars(ports.len())] + ports_lines_from(ports, 0)
}

/// Render the listing of some enumerated ports, line by line, exactly
/// as `listing_chars` lays it out.
pub fn render_port_list(ports: &Vec<PortInfo>) -> (lines: Vec<String>)
    ensures
        lines@.map_values(|s: String| s@) == listing_chars(ports@),
{
    let mut lines: Vec<String> = Vec::new();
    if ports.len() == 0 {
        lines.push(String::from_str("No ports found."));
    } else if ports.len() == 1 {
        lines.push(String::from_str("Found 1 port:"));
    } else {
        let mut h = String::from_str("Found ");
        let count = fmt_usize(ports.len());
        h.append(count.as_str());
        h.append(" ports:");
        lines.push(h);
    }
    assert(lines@.map_values(|s: String| s@) =~= seq![header_chars(ports@.len())]);
    let mut i: usize = 0;
    while i < ports.len()
        invariant
            i <= ports@.len(),
            lines@.map_values(|s: String| s@) + ports_lines_from(ports@, i as int)
                == listing_chars(ports@),
        decreases ports@.len() - i,
    {
        let ghost lines_before = lines@.map_values(|s: String| s@);
        let mut head = fmt_usize(i + 1);
        head.append(". ");
        head.append(ports[i].port_name.as_str());
        match &ports[i].port_type {
            PortClass::Usb { vid, pid, serial_number, manufacturer } => {
                lines.push(head);
                lines.push(String::from_str("   Type: USB"));
                let mut ids = String::from_str("   VID: ");
                let vid_hex = hex4(*vid);
                ids.append(vid_hex.as_str());
                ids.append(" PID: ");
                let pid_hex = hex4(*pid);
                ids.append(pid_hex.as_str());
                lines.push(ids);
                let mut sn = String::from_str("   Serial Number: ");
                match serial_number {
                    Some(x) => sn.append(x.as_str()),
                    None => sn.append("N/A"),
                }
                lines.push(sn);
                let mut mf = String::from_str("   Manufacturer: ");
                match manufacturer {
                    Some(x) => mf.append(x.as_str()),
                    None => mf.append("N/A"),
                }
                lines.push(mf);
            }
            PortClass::Unknown => {
                lines.push(head);
                lines.push(String::from_str("   Type: Unknown"));
            }
        }
        proof {
            assert(lines@.map_values(|s: String| s@) =~= lines_before + port_lines(
                (i + 1) as nat,
                ports@[i as int],
            ));
            assert(lines_before + ports_lines_from(ports@, i as int) =~= lines_before
                + port_lines((i + 1) as nat, ports@[i as int]) + ports_lines_from(
                ports@,
                i + 1,
            ));
        }
        i = i + 1;
    }
    proof {
        assert(lines@.map_values(|s: String| s@) + ports_lines_from(ports@, i as int)
            =~= lines@.map_values(|s: String| s@));
    }
    lines
}

} // verus!
