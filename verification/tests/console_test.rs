use ruuvi_data_forwarder_rs::error::SinkError;
use ruuvi_data_forwarder_rs::sink::console::ConsoleSink;
use ruuvi_data_forwarder_rs::sink::SensorValuesSink;
use ruuvi_data_forwarder_rs::source::reader_source;

const RECORD1: &str = r#"{"battery_potential":2335,"humidity":653675,"mac_address":[254,38,136,122,102,102],"measurement_ts_ms":1693460525699,"measurement_sequence_number":53300,"movement_counter":2,"pressure":100755,"temperature_millicelsius":-29020,"tx_power":4}"#;
const RECORD2: &str = r#"{"battery_potential":2176,"humidity":576425,"mac_address":[213,18,52,102,20,20],"measurement_ts_ms":1693460525701,"measurement_sequence_number":1589,"movement_counter":79,"pressure":100556,"temperature_millicelsius":22080,"tx_power":4}"#;

#[test]
fn console_sink_passes_through_values() {
    let input = format!("{}\n{}\n", RECORD1, RECORD2);
    let mut stdout = Vec::new();
    for item in reader_source(input.as_bytes()) {
        if let Ok(line) = item {
            let value: serde_json::Value = serde_json::from_str(&line).unwrap();
            let json = serde_json::to_string(&value).unwrap();
            stdout.extend(ConsoleSink.write_batch(&vec![Ok(json)]).unwrap());
        }
    }

    let stdout = String::from_utf8(stdout).unwrap();
    let lines: Vec<&str> = stdout.lines().collect();
    assert_eq!(lines.len(), 2, "Expected 2 output lines");

    let parse = |line: &str| serde_json::from_str::<serde_json::Value>(line).unwrap();
    assert_eq!(
        vec![parse(lines[0]), parse(lines[1])],
        vec![parse(RECORD1), parse(RECORD2)]
    );
}

#[test]
fn each_record_has_its_line() {
    assert_eq!(ConsoleSink.write_batch(&vec![]), Ok(Vec::new()));
    let records = vec![Ok("{\"a\":1}".to_string()), Ok("\u{e4}".to_string())];
    assert_eq!(
        ConsoleSink.write_batch(&records),
        Ok("{\"a\":1}\n\u{e4}\n".as_bytes().to_vec())
    );
}

#[test]
fn the_first_record_without_text_is_reported() {
    let records = vec![
        Ok("{}".to_string()),
        Err("first".to_string()),
        Err("second".to_string()),
    ];
    assert_eq!(
        ConsoleSink.write_batch(&records),
        Err(SinkError::SerializationError("first".to_string()))
    );
}

#[test]
fn console_batches_are_single_records() {
    assert_eq!(ConsoleSink.desired_batch_size(), 1);
    assert_eq!(
        ConsoleSink.desired_max_batch_latency(),
        std::time::Duration::from_secs(86400).as_nanos()
    );
}

#[test]
fn written_lines_are_read_back() {
    let texts = ["{}", "", "a b", "\u{1f980}"];
    let records = texts.iter().map(|text| Ok(text.to_string())).collect();
    let output = ConsoleSink.write_batch(&records).unwrap();
    let items = reader_source(&output);
    let read: Vec<&str> = items.iter().flatten().map(String::as_str).collect();
    assert_eq!(read, texts);
    assert_eq!(items.len(), 5);
}
