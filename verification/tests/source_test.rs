use ruuvi_data_forwarder_rs::dto::RuuviTelemetry;
use ruuvi_data_forwarder_rs::error::SourceError;
use ruuvi_data_forwarder_rs::source::{
    frame_item, map_line, parse_line, reader_source, validate, BoundedLine, BoundedLinesCodec,
    LineFault, MAX_LINE_BYTES,
};
use tokio_util::bytes::BytesMut;

/// Parses a line as JSON, field by field.
fn parsed(line: &str) -> Result<RuuviTelemetry, String> {
    let value: serde_json::Value = serde_json::from_str(line).map_err(|e| e.to_string())?;
    let number = |key: &str| value[key].as_i64().ok_or(format!("missing field `{key}`"));
    Ok(RuuviTelemetry {
        temperature_millicelsius: number("temperature_millicelsius")? as i32,
        humidity: number("humidity")? as i32,
        pressure: number("pressure")? as i32,
        battery_potential: number("battery_potential")? as i32,
        tx_power: number("tx_power")? as i32,
        movement_counter: number("movement_counter")? as i32,
        measurement_sequence_number: number("measurement_sequence_number")? as i32,
        measurement_ts_ms: number("measurement_ts_ms")?,
        mac_address: value["mac_address"]
            .as_array()
            .ok_or("missing field `mac_address`".to_string())?
            .iter()
            .map(|byte| byte.as_i64().unwrap() as i16)
            .collect(),
    })
}

fn collect(input: String) -> Vec<Result<RuuviTelemetry, SourceError>> {
    reader_source(input.as_bytes())
        .into_iter()
        .map(|item| item.and_then(|line| parse_line(parsed(&line))))
        .collect()
}

fn valid_line() -> String {
    r#"{"battery_potential":2335,"humidity":653675,"measurement_ts_ms":1693460525701,"mac_address":[254,38,136,122,102,102],"measurement_sequence_number":53300,"movement_counter":2,"pressure":100755,"temperature_millicelsius":-29020,"tx_power":4}"#.to_string()
}

fn line_with_mac(mac: &str) -> String {
    valid_line().replace("[254,38,136,122,102,102]", mac)
}

#[test]
fn valid_line_parses_and_stream_ends_with_shutdown() {
    let items = collect(format!("{}\n", valid_line()));
    assert_eq!(items.len(), 2);
    assert_eq!(
        items[0].as_ref().unwrap().mac_address,
        vec![254, 38, 136, 122, 102, 102]
    );
    assert!(matches!(items[1], Err(SourceError::StreamShutdown)));
}

#[test]
fn wrong_mac_length_is_a_parse_error() {
    for mac in ["[]", "[1,2,3]", "[1,2,3,4,5,6,7]"] {
        let items = collect(format!("{}\n", line_with_mac(mac)));
        assert!(
            matches!(&items[0], Err(SourceError::ParseError(m)) if m.contains("6 bytes")),
            "expected parse error for mac {mac}, got {:?}",
            items[0]
        );
    }
}

#[test]
fn out_of_range_mac_byte_is_a_parse_error() {
    for mac in ["[256,2,3,4,5,6]", "[-1,2,3,4,5,6]"] {
        let items = collect(format!("{}\n", line_with_mac(mac)));
        assert!(
            matches!(&items[0], Err(SourceError::ParseError(m)) if m.contains("0..=255")),
            "expected parse error for mac {mac}, got {:?}",
            items[0]
        );
    }
}

#[test]
fn oversized_line_is_discarded_and_stream_recovers() {
    let oversized = "x".repeat(MAX_LINE_BYTES + 1);
    let items = collect(format!("{oversized}\n{}\n", valid_line()));
    assert!(
        matches!(&items[0], Err(SourceError::ParseError(m)) if m.contains("maximum length")),
        "expected line-length error, got {:?}",
        items[0]
    );
    assert!(items[1].is_ok(), "stream did not recover: {:?}", items[1]);
    assert!(matches!(
        items.last(),
        Some(Err(SourceError::StreamShutdown))
    ));
}

#[test]
fn faults_of_an_address_are_spelled_out() {
    let check = |mac_address: Vec<i16>| {
        let mut telemetry = parsed(&valid_line()).unwrap();
        telemetry.mac_address = mac_address;
        validate(&telemetry)
    };
    let fault = |text: &str| Err(SourceError::ParseError(text.to_string()));
    assert_eq!(check(vec![0, 255, 1, 2, 3, 4]), Ok(()));
    assert_eq!(check(vec![1; 12]), fault("mac_address must have 6 bytes, got 12"));
    assert_eq!(
        check(vec![0, -32768, 300, 2, 3, 4]),
        fault("mac_address byte -32768 is outside 0..=255")
    );
    assert_eq!(
        check(vec![0, 1, 300, 2, 3, -4]),
        fault("mac_address byte 300 is outside 0..=255")
    );
}

#[test]
fn lines_that_are_no_json_are_skipped() {
    let items = collect("nonsense\n".to_string());
    assert!(matches!(&items[0], Err(SourceError::ParseError(_))));
    assert_eq!(
        parse_line(Err("expected value".to_string())),
        Err(SourceError::ParseError("expected value".to_string()))
    );
}

fn texts(input: &[u8]) -> Vec<Result<String, SourceError>> {
    reader_source(input)
}

fn text(line: &str) -> Result<String, SourceError> {
    Ok(line.to_string())
}

fn too_long() -> Result<String, SourceError> {
    Err(SourceError::ParseError(
        "line exceeds the maximum length of 65536 bytes".to_string(),
    ))
}

#[test]
fn lines_end_with_newlines_and_the_input() {
    let end = || Err(SourceError::StreamShutdown);
    assert_eq!(texts(b""), vec![end()]);
    assert_eq!(texts(b"\r"), vec![end()]);
    assert_eq!(texts(b"\n\r\n"), vec![text(""), text(""), end()]);
    assert_eq!(texts(b"a\r\nb\n\nc"), vec![text("a"), text("b"), text(""), text("c"), end()]);
    assert_eq!(texts(b"a\r"), vec![text("a"), end()]);
    assert_eq!(texts(b"a\r\rb\n"), vec![text("a\r\rb"), end()]);
}

#[test]
fn the_bound_counts_the_bytes_before_the_newline() {
    let end = || Err(SourceError::StreamShutdown);
    let longest = "x".repeat(MAX_LINE_BYTES);
    assert_eq!(texts(format!("{longest}\na\n").as_bytes()), vec![text(&longest), text("a"), end()]);
    assert_eq!(texts(longest.as_bytes()), vec![text(&longest), end()]);
    assert_eq!(texts(format!("{longest}x").as_bytes()), vec![too_long(), end()]);
    assert_eq!(
        texts(format!("{longest}x\n{longest}x\na").as_bytes()),
        vec![too_long(), too_long(), text("a"), end()]
    );
}

#[test]
fn input_that_is_no_text_fails() {
    let failed = || Err(SourceError::IoError("Unable to decode input as UTF8".to_string()));
    let end = || Err(SourceError::StreamShutdown);
    assert_eq!(texts(b"a\n\xff\nb\n"), vec![text("a"), failed(), end()]);
    assert_eq!(texts(b"\xc3"), vec![failed(), end()]);
    assert_eq!(texts("\u{e4}\n".as_bytes()), vec![text("\u{e4}"), end()]);
}

#[test]
fn pieces_make_no_difference() {
    let input = b"one\r\ntwolong\nthree\n\nfour";
    let mut whole = None;
    for size in 1..=input.len() {
        let mut codec = BoundedLinesCodec::new(5);
        let mut buffer = BytesMut::new();
        let mut found = Vec::new();
        for piece in input.chunks(size) {
            buffer.extend_from_slice(piece);
            while let Some(line) = codec.decode(&mut buffer).unwrap() {
                found.push(line);
            }
        }
        while let Some(line) = codec.decode_eof(&mut buffer).unwrap() {
            found.push(line);
        }
        assert_eq!(&found, whole.get_or_insert_with(|| {
            vec![
                BoundedLine::Line("one".to_string()),
                BoundedLine::Oversized,
                BoundedLine::Line("three".to_string()),
                BoundedLine::Line(String::new()),
                BoundedLine::Line("four".to_string()),
            ]
        }));
    }
}

#[test]
fn oversized_lines_are_items_and_failures_stay_failures() {
    assert_eq!(map_line(Ok(None)), Ok(None));
    assert_eq!(
        map_line(Ok(Some("a".to_string()))),
        Ok(Some(BoundedLine::Line("a".to_string())))
    );
    assert_eq!(
        map_line(Err(LineFault::MaxLineLengthExceeded)),
        Ok(Some(BoundedLine::Oversized))
    );
    assert_eq!(map_line(Err(LineFault::Io("x".to_string()))), Err("x".to_string()));
    assert_eq!(frame_item(Ok(BoundedLine::Oversized)), too_long());
    assert_eq!(
        frame_item(Err("x".to_string())),
        Err(SourceError::IoError("x".to_string()))
    );
}
