//! The telemetry record.
use vstd::prelude::*;

verus! {

/// One measurement of a Ruuvi sensor.
#[derive(Debug, PartialEq)]
pub struct RuuviTelemetry {
    pub temperature_millicelsius: i32,
    pub humidity: i32,
    pub pressure: i32,
    pub battery_potential: i32,
    pub tx_power: i32,
    pub movement_counter: i32,
    pub measurement_sequence_number: i32,
    pub measurement_ts_ms: i64,
    pub mac_address: Vec<i16>,
}

impl Clone for RuuviTelemetry {
    fn clone(&self) -> (r: RuuviTelemetry)
        ensures
            r.temperature_millicelsius == self.temperature_millicelsius,
            r.humidity == self.humidity,
            r.pressure == self.pressure,
            r.battery_potential == self.battery_potential,
            r.tx_power == self.tx_power,
            r.movement_counter == self.movement_counter,
            r.measurement_sequence_number == self.measurement_sequence_number,
            r.measurement_ts_ms == self.measurement_ts_ms,
            r.mac_address@ == self.mac_address@,
    {
        RuuviTelemetry { mac_address: self.mac_address.clone(), ..*self }
    }
}

/// The upper-case hexadecimal digit of a number below sixteen.
pub open spec fn hex_digit(n: int) -> char {
    if n < 10 {
        (n + 0x30) as char
    } else {
        (n - 10 + 0x41) as char
    }
}

/// The low eight bits of an address element, as two hexadecimal digits.
pub open spec fn hex_byte(element: i16) -> Seq<char> {
    let byte = (element as int) % 256;
    seq![hex_digit(byte / 16), hex_digit(byte % 16)]
}

/// Hexadecimal bytes with a colon between each two of them.
pub open spec fn hex_address(elements: Seq<i16>) -> Seq<char>
    decreases elements.len(),
{
    if elements.len() == 0 {
        Seq::empty()
    } else if elements.len() == 1 {
        hex_byte(elements[0])
    } else {
        hex_address(elements.drop_last()).push(':') + hex_byte(elements.last())
    }
}

fn hex_char(n: u8) -> (c: char)
    requires
        n < 16,
    ensures
        c == hex_digit(n as int),
{
    if n < 10 {
        (n + 0x30) as char
    } else {
        (n - 10 + 0x41) as char
    }
}

impl RuuviTelemetry {
    /// The MAC address as upper-case hexadecimal bytes separated by colons, such as
    /// `FE:26:88:7A:66:66`. Only the low eight bits of each element count.
    pub fn mac_address_hex(&self) -> (r: String)
        ensures
            r@ == hex_address(self.mac_address@),
    {
        let mut text = String::new();
        let mut i: usize = 0;
        while i < self.mac_address.len()
            invariant
                i <= self.mac_address@.len(),
                text@ == hex_address(self.mac_address@.take(i as int)),
            decreases self.mac_address@.len() - i,
        {
            let element: i16 = self.mac_address[i];
            let byte: u8 = #[verifier::truncate]
            (element as u8);
            assert(byte as int == (element as int) % 256) by (bit_vector)
                requires
                    byte == element as u8,
            ;
            assert(self.mac_address@.take(i + 1).drop_last() =~= self.mac_address@.take(i as int));
            if i > 0 {
                text.push(':');
            }
            text.push(hex_char(byte / 16));
            text.push(hex_char(byte % 16));
            assert(text@ =~= hex_address(self.mac_address@.take(i + 1)));
            i = i + 1;
        }
        assert(self.mac_address@.take(i as int) =~= self.mac_address@);
        text
    }
}

/// Whether each element is an unsigned byte.
pub open spec fn are_bytes(elements: Seq<i16>) -> bool {
    forall|i: int| 0 <= i < elements.len() ==> 0 <= #[trigger] elements[i] <= 255
}

/// An address is written with two digits for each byte and a colon between each two bytes.
pub proof fn law_addresses_have_a_fixed_length(elements: Seq<i16>)
    ensures
        hex_address(elements).len() == if elements.len() == 0 {
            0
        } else {
            3 * elements.len() - 1
        },
    decreases elements.len(),
{
    if elements.len() > 1 {
        law_addresses_have_a_fixed_length(elements.drop_last());
    }
}

/// Writing an address out loses nothing: addresses of unsigned bytes that are written in
/// the same way are the same.
pub proof fn law_addresses_are_written_unambiguously(a: Seq<i16>, b: Seq<i16>)
    requires
        are_bytes(a),
        are_bytes(b),
        hex_address(a) == hex_address(b),
    ensures
        a == b,
    decreases a.len(),
{
    law_addresses_have_a_fixed_length(a);
    law_addresses_have_a_fixed_length(b);
    assert(a.len() == b.len());
    if a.len() > 0 {
        let text = hex_address(a);
        let n = text.len();
        assert(text.subrange(n - 2, n as int) =~= hex_byte(a.last()));
        assert(hex_address(b).subrange(n - 2, n as int) =~= hex_byte(b.last()));
        assert(hex_byte(a.last())[0] == hex_byte(b.last())[0]);
        assert(hex_byte(a.last())[1] == hex_byte(b.last())[1]);
        assert(a.last() == b.last());
        let c = a.drop_last();
        let d = b.drop_last();
        assert forall|i: int| 0 <= i < c.len() implies 0 <= #[trigger] c[i] <= 255 by {
            assert(c[i] == a[i]);
        }
        assert forall|i: int| 0 <= i < d.len() implies 0 <= #[trigger] d[i] <= 255 by {
            assert(d[i] == b[i]);
        }
        if a.len() > 1 {
            assert(hex_address(c) =~= text.take(n - 3));
            assert(hex_address(d) =~= hex_address(b).take(n - 3));
        }
        law_addresses_are_written_unambiguously(c, d);
        assert(a =~= c.push(a.last()));
        assert(b =~= d.push(b.last()));
    } else {
        assert(a =~= b);
    }
}

/// The number that an upper-case hexadecimal digit stands for, if it is one.
pub open spec fn hex_value(c: char) -> Option<int> {
    if '0' <= c <= '9' {
        Some(c as int - '0' as int)
    } else if 'A' <= c <= 'F' {
        Some(c as int - 'A' as int + 10)
    } else {
        None
    }
}

/// Each element has its place in the text, in order: two hexadecimal digits that stand for
/// its low eight bits, with a colon behind them unless it is the last.
pub proof fn law_addresses_are_written_byte_by_byte(elements: Seq<i16>, i: int)
    requires
        0 <= i < elements.len(),
    ensures
        ({
            let text = hex_address(elements);
            &&& text.len() == 3 * elements.len() - 1
            &&& hex_value(text[3 * i]) matches Some(high) && hex_value(text[3 * i + 1]) matches Some(
                low,
            ) && 16 * high + low == elements[i] as int % 256
            &&& i + 1 < elements.len() ==> text[3 * i + 2] == ':'
        }),
    decreases elements.len(),
{
    law_addresses_have_a_fixed_length(elements);
    let text = hex_address(elements);
    let rest = elements.drop_last();
    law_addresses_have_a_fixed_length(rest);
    if i + 1 < elements.len() {
        law_addresses_are_written_byte_by_byte(rest, i);
        assert(text.take(3 * rest.len() - 1) =~= hex_address(rest));
        assert(text[3 * i] == hex_address(rest)[3 * i]);
        assert(text[3 * i + 1] == hex_address(rest)[3 * i + 1]);
        if i + 1 < rest.len() {
            assert(text[3 * i + 2] == hex_address(rest)[3 * i + 2]);
        }
    } else {
        let byte = elements.last() as int % 256;
        assert(text[3 * i] == hex_byte(elements.last())[0]);
        assert(text[3 * i + 1] == hex_byte(elements.last())[1]);
        assert(0 <= byte / 16 < 16);
    }
}

} // verus!
