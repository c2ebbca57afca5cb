use bus_proximity::extract::{decode_position, decode_positions, read_position, read_positions, Position};
use bus_proximity::error::DecodeCategory;

#[test]
fn lib_test_position_decoding() {
    let bus_location_json = r#"{"Latitude":43.7395222,"Longitude":-79.4443416,"Heading":"E","HeadingDegrees":74.0,"Time":"2026-01-06T08:59:49","Speed":15.998398780822754}"#;
    let stop_locations_json = r#"[{"X":625727.54153501848,"Y":4842863.9580828669,"Longitude":-79.43893765643179,"Latitude":43.728150882692312}]"#;

    let bus_location: Position = decode_position(bus_location_json).unwrap();
    let stop_locations: Vec<Position> = decode_positions(stop_locations_json).unwrap();

    assert_eq!(43.7395222, f64::from_bits(bus_location.latitude.to_bits()));
    assert_eq!(43.728150882692312, f64::from_bits(stop_locations[0].latitude.to_bits()));
}

#[test]
fn main_test_position_decoding() {
    let bus_location_json = r#"{"Latitude":43.7395222,"Longitude":-79.4443416,"Heading":"E","HeadingDegrees":74.0,"Time":"2026-01-06T08:59:49","Speed":15.998398780822754}"#;
    let stop_locations_json = r#"[{"X":625727.54153501848,"Y":4842863.9580828669,"Longitude":-79.43893765643179,"Latitude":43.728150882692312}]"#;

    let bus_location: Position = decode_position(bus_location_json).unwrap();
    let stop_locations: Vec<Position> = decode_positions(stop_locations_json).unwrap();

    assert_eq!(43.7395222, f64::from_bits(bus_location.latitude.to_bits()));
    assert_eq!(43.728150882692312, f64::from_bits(stop_locations[0].latitude.to_bits()));
}

#[test]
fn decoding_reads_both_coordinates() {
    let bus = decode_position(r#"{"Latitude":43.7395222,"Longitude":-79.4443416}"#).unwrap();
    assert_eq!(f64::from_bits(bus.latitude.bits), 43.7395222);
    assert_eq!(f64::from_bits(bus.longitude.bits), -79.4443416);
    assert_ne!(bus.latitude, bus.longitude);
}

#[test]
fn decoding_ignores_other_members() {
    let plain = decode_position(r#"{"Latitude":1.5,"Longitude":-2.25}"#).unwrap();
    let crowded = decode_position(
        r#"{"Speed":[1,2],"Longitude":-2.25,"Heading":{"Latitude":9.0},"Latitude":1.5,"X":null}"#,
    )
    .unwrap();
    assert_eq!(plain, crowded);
}

#[test]
fn decoding_takes_whole_numbers_as_coordinates() {
    let position = decode_position(r#"{"Latitude":43,"Longitude":-79}"#).unwrap();
    assert_eq!(f64::from_bits(position.latitude.bits), 43.0);
    assert_eq!(f64::from_bits(position.longitude.bits), -79.0);
}

#[test]
fn decoding_names_are_case_sensitive() {
    assert_eq!(
        decode_position(r#"{"latitude":43.7,"longitude":-79.4}"#),
        Err(DecodeCategory::Data)
    );
    assert_eq!(
        decode_position(r#"{"LATITUDE":43.7,"Longitude":-79.4}"#),
        Err(DecodeCategory::Data)
    );
}

#[test]
fn decoding_rejects_other_shapes_as_data() {
    assert_eq!(decode_position(r#"{"Latitude":43.7}"#), Err(DecodeCategory::Data));
    assert_eq!(decode_position(r#"{"Longitude":43.7}"#), Err(DecodeCategory::Data));
    assert_eq!(
        decode_position(r#"{"Latitude":"43.7","Longitude":-79.4}"#),
        Err(DecodeCategory::Data)
    );
    assert_eq!(
        decode_position(r#"{"Latitude":null,"Longitude":-79.4}"#),
        Err(DecodeCategory::Data)
    );
    assert_eq!(decode_position(r#""Latitude""#), Err(DecodeCategory::Data));
    assert_eq!(decode_position("17"), Err(DecodeCategory::Data));
    assert_eq!(decode_position("null"), Err(DecodeCategory::Data));
    assert_eq!(decode_positions(r#"{"Latitude":1.0,"Longitude":2.0}"#), Err(DecodeCategory::Data));
    assert_eq!(decode_positions("3.5"), Err(DecodeCategory::Data));
}

#[test]
fn decoding_rejects_broken_text_as_syntax() {
    assert_eq!(decode_position(r#"{"Latitude": }"#), Err(DecodeCategory::Syntax));
    assert_eq!(decode_position(r#"{"Latitude":1.0,"Longitude":2.0} x"#), Err(DecodeCategory::Syntax));
    assert_eq!(decode_positions("[1,]"), Err(DecodeCategory::Syntax));
    assert_eq!(decode_positions("not json"), Err(DecodeCategory::Syntax));
}

#[test]
fn decoding_rejects_cut_text_as_eof() {
    assert_eq!(decode_position(""), Err(DecodeCategory::Eof));
    assert_eq!(decode_position(r#"{"Latitude":1.0"#), Err(DecodeCategory::Eof));
    assert_eq!(decode_positions(r#"[{"Latitude":1.0,"Longitude":2.0}"#), Err(DecodeCategory::Eof));
}

#[test]
fn decoding_a_list_keeps_every_stop_in_order() {
    let stops = decode_positions(
        r#"[{"Latitude":1.0,"Longitude":2.0},{"Longitude":4.0,"Latitude":3.0},{"Latitude":5.0,"Longitude":6.0,"X":0}]"#,
    )
    .unwrap();
    assert_eq!(stops.len(), 3);
    let degrees: Vec<(f64, f64)> = stops
        .iter()
        .map(|stop| (f64::from_bits(stop.latitude.bits), f64::from_bits(stop.longitude.bits)))
        .collect();
    assert_eq!(degrees, vec![(1.0, 2.0), (3.0, 4.0), (5.0, 6.0)]);
}

#[test]
fn decoding_an_empty_list_gives_no_stops() {
    assert_eq!(decode_positions("[]"), Ok(vec![]));
    assert_eq!(decode_positions(" [ ] "), Ok(vec![]));
}

#[test]
fn decoding_a_list_with_one_bad_stop_fails() {
    assert_eq!(
        decode_positions(r#"[{"Latitude":1.0,"Longitude":2.0},{"Latitude":3.0}]"#),
        Err(DecodeCategory::Data)
    );
    assert_eq!(decode_positions(r#"[{"Latitude":1.0,"Longitude":2.0},7]"#), Err(DecodeCategory::Data));
}

#[test]
fn reading_a_parsed_document() {
    let value: serde_json::Value =
        serde_json::from_str(r#"{"Latitude":10.5,"Longitude":20.25,"Speed":3}"#).unwrap();
    let position = read_position(&value).unwrap();
    assert_eq!(position.latitude.bits, 10.5f64.to_bits());
    assert_eq!(position.longitude.bits, 20.25f64.to_bits());
    assert_eq!(read_positions(&value), Err(DecodeCategory::Data));

    let list: serde_json::Value = serde_json::from_str(r#"[{"Latitude":10.5,"Longitude":20.25}]"#).unwrap();
    assert_eq!(read_positions(&list), Ok(vec![position]));
    assert_eq!(read_position(&list), Err(DecodeCategory::Data));
}
