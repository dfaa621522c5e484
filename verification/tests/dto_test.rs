use ruuvi_data_forwarder_rs::dto::RuuviTelemetry;

fn telemetry(mac_address: Vec<i16>) -> RuuviTelemetry {
    RuuviTelemetry {
        temperature_millicelsius: 0,
        humidity: 0,
        pressure: 0,
        battery_potential: 0,
        tx_power: 0,
        movement_counter: 0,
        measurement_sequence_number: 0,
        measurement_ts_ms: 0,
        mac_address,
    }
}

#[test]
fn test_mac_address_hex() {
    let telemetry = telemetry(vec![254, 38, 136, 122, 102, 102]);
    assert_eq!(telemetry.mac_address_hex(), "FE:26:88:7A:66:66");
}

#[test]
fn every_byte_is_written_with_two_digits() {
    for byte in 0..=255i16 {
        assert_eq!(telemetry(vec![byte]).mac_address_hex(), format!("{byte:02X}"));
    }
    assert_eq!(telemetry(vec![]).mac_address_hex(), "");
    assert_eq!(telemetry(vec![0, 10]).mac_address_hex(), "00:0A");
}

#[test]
fn only_the_low_bits_of_an_element_count() {
    assert_eq!(telemetry(vec![256, -1, 511]).mac_address_hex(), "00:FF:FF");
}

#[test]
fn addresses_have_a_length_of_their_own() {
    for count in 1..8 {
        assert_eq!(telemetry(vec![7; count]).mac_address_hex().len(), 3 * count - 1);
    }
}

#[test]
fn different_addresses_are_written_differently() {
    let mut written: Vec<String> = (0..=255)
        .flat_map(|byte| [vec![byte, 0], vec![0, byte], vec![byte]])
        .map(|address| telemetry(address).mac_address_hex())
        .collect();
    written.sort();
    written.dedup();
    assert_eq!(written.len(), 3 * 256 - 1);
}
