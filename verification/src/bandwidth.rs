//! Bandwidth figures: bits per second, and their human-readable text.

use vstd::prelude::*;
use vstd::string::*;
use crate::text::{decimal, decimal_text};

verus! {

/// Length of one aggregation window, in seconds.
pub const WINDOW_SECONDS: u64 = 10;

/// The bandwidth of a window in which `bytes` bytes were sent: the bits sent
/// divided by the window's length, rounded up to a whole bit per second.
pub open spec fn window_rate(bytes: nat) -> nat {
    ((bytes * 8 + (WINDOW_SECONDS - 1)) / (WINDOW_SECONDS as int)) as nat
}

/// The bandwidth that `connections` connections aim for when each sends
/// `rate` packets of `len` bytes per second, in bits per second.
pub open spec fn aggregate_bits(connections: nat, rate: nat, len: nat) -> nat {
    connections * rate * len * 8
}

/// The text that `byte_unit` gives for a size: the value scaled to the
/// largest decimal unit (B, KB, MB, ...) that does not exceed the size, one
/// space, and that unit's name.
pub uninterp spec fn decimal_unit_text(size: u64) -> Seq<char>;

/// Calls `byte_unit::Byte::from_u64`, `Byte::get_appropriate_unit` with
/// `UnitType::Decimal`, and `to_string` on the adjusted value. The text
/// depends on the size alone; the contract gives it its name and claims
/// nothing else of it.
#[verifier::external_body]
fn format_decimal_unit(size: u64) -> (text: String)
    ensures
        text@ == decimal_unit_text(size),
{
    byte_unit::Byte::from_u64(size).get_appropriate_unit(byte_unit::UnitType::Decimal).to_string()
}

/// Computes the bandwidth of a window in which `bytes` bytes were sent.
pub fn window_bandwidth(bytes: u64) -> (bits_per_second: u64)
    ensures
        bits_per_second == window_rate(bytes as nat),
{
    let bits: u128 = bytes as u128 * 8;
    let rounded: u128 = (bits + 9) / 10;
    rounded as u64
}

/// Computes the packet rate that the whole fleet aims for.
///
/// `None` exactly when the product does not fit the machine word.
pub fn theoretical_packet_rate(connections: usize, rate: usize) -> (packets: Option<usize>)
    ensures
        connections * rate <= usize::MAX ==> packets == Some((connections * rate) as usize),
        connections * rate > usize::MAX ==> packets.is_none(),
{
    connections.checked_mul(rate)
}

/// Computes the bandwidth that the whole fleet aims for, in bits per second.
///
/// `None` exactly when the figure does not fit 64 bits.
pub fn theoretical_bandwidth(connections: usize, rate: usize, len: usize) -> (bits: Option<u64>)
    ensures
        aggregate_bits(connections as nat, rate as nat, len as nat) <= u64::MAX ==> bits == Some(
            aggregate_bits(connections as nat, rate as nat, len as nat) as u64,
        ),
        aggregate_bits(connections as nat, rate as nat, len as nat) > u64::MAX ==> bits.is_none(),
{
    let c: u64 = connections as u64;
    let r: u64 = rate as u64;
    let l: u64 = len as u64;
    if c == 0 || r == 0 || l == 0 {
        assert(c * r * l * 8 == 0) by (nonlinear_arith)
            requires
                c == 0 || r == 0 || l == 0,
        ;
        return Some(0);
    }
    match c.checked_mul(r) {
        None => {
            assert(c * r * l * 8 > u64::MAX) by (nonlinear_arith)
                requires
                    c * r > u64::MAX,
                    l >= 1,
            ;
            None
        },
        Some(cr) => match cr.checked_mul(l) {
            None => {
                assert(c * r * l * 8 > u64::MAX) by (nonlinear_arith)
                    requires
                        c * r * l > u64::MAX,
                ;
                None
            },
            Some(crl) => {
                assert(crl == c * r * l);
                crl.checked_mul(8)
            },
        },
    }
}

/// The text of a size without its last character.
pub open spec fn without_unit_letter(text: Seq<char>) -> Seq<char>
    recommends
        text.len() > 0,
{
    text.drop_last()
}

/// Turns the text of a size in bytes into the stem of a figure in bits: drops
/// the final letter, so that `"4.8 KB"` becomes `"4.8 K"`, to which `"bit/s"`
/// is then appended.
pub fn bandwidth_label(text: &str) -> (label: String)
    requires
        text@.len() > 0,
    ensures
        label@ == without_unit_letter(text@),
{
    let chars: usize = text.unicode_len();
    String::from_str(text.substring_char(0, chars - 1))
}

/// Formats a bandwidth in bits per second as a human-readable stem such as
/// `"480 "` or `"4.8 K"`.
///
/// The figure is the text that `byte_unit` gives for the same number of
/// bytes, without its final letter. `None` exactly when that text is empty.
pub fn format_bandwidth(bits_per_second: u64) -> (label: Option<String>)
    ensures
        decimal_unit_text(bits_per_second).len() > 0 ==> label.is_some() && label.unwrap()@
            == without_unit_letter(decimal_unit_text(bits_per_second)),
        decimal_unit_text(bits_per_second).len() == 0 ==> label.is_none(),
{
    let text = format_decimal_unit(bits_per_second);
    if text.as_str().unicode_len() > 0 {
        Some(bandwidth_label(text.as_str()))
    } else {
        None
    }
}

/// The startup line that states the packet rate the fleet aims for.
pub open spec fn packet_rate_text(packets: nat) -> Seq<char> {
    "Theoretical Packets rate: "@ + decimal(packets) + " pkt/sec"@
}

/// The startup line that states the bandwidth the fleet aims for, given the
/// bandwidth as a stem such as `"480 "` or `"4.8 K"`.
pub open spec fn bandwidth_text(label: Seq<char>) -> Seq<char> {
    "Theoretical Bandwidth: "@ + label + "bit/s"@
}

/// Writes the startup line for the fleet's packet rate.
pub fn packet_rate_line(packets: u64) -> (line: String)
    ensures
        line@ == packet_rate_text(packets as nat),
{
    let mut line = String::from_str("Theoretical Packets rate: ");
    let count = decimal_text(packets);
    line.append(count.as_str());
    line.append(" pkt/sec");
    line
}

/// Writes the startup line for the fleet's bandwidth.
pub fn bandwidth_line(label: &str) -> (line: String)
    ensures
        line@ == bandwidth_text(label@),
{
    let mut line = String::from_str("Theoretical Bandwidth: ");
    line.append(label);
    line.append("bit/s");
    line
}

} // verus!
