use bus_proximity::binary64::Binary64;
use bus_proximity::error::{MonitorError, PageElement, PositionField};
use bus_proximity::extract::{first_stop, locate, Located, Position};
use bus_proximity::error::DecodeCategory;

const BUS: &str = r#"{"Latitude":43.7395222,"Longitude":-79.4443416,"Heading":"E"}"#;
const STOPS: &str = r#"[{"X":625727.5,"Y":4842863.9,"Longitude":-79.43893765643179,"Latitude":43.728150882692312},{"Latitude":1.0,"Longitude":2.0}]"#;

fn position(latitude: f64, longitude: f64) -> Position {
    Position {
        latitude: Binary64::from_bits(latitude.to_bits()),
        longitude: Binary64::from_bits(longitude.to_bits()),
    }
}

#[test]
fn locate_finds_the_bus_and_the_first_stop() {
    assert_eq!(
        locate(Some(BUS), Some(STOPS)),
        Ok(Located {
            bus: position(43.7395222, -79.4443416),
            stop: position(43.728150882692312, -79.43893765643179),
        })
    );
}

#[test]
fn locate_with_an_empty_stop_list_finds_no_stops() {
    assert_eq!(locate(Some(BUS), Some("[]")), Err(MonitorError::NoStopsFound));
}

#[test]
fn first_stop_of_an_empty_list_is_an_error() {
    assert_eq!(first_stop(&vec![]), Err(MonitorError::NoStopsFound));
}

#[test]
fn first_stop_ignores_the_later_stops() {
    let stops = vec![position(1.0, 2.0), position(3.0, 4.0), position(5.0, 6.0)];
    assert_eq!(first_stop(&stops), Ok(position(1.0, 2.0)));
    assert_eq!(first_stop(&stops[..1].to_vec()), Ok(position(1.0, 2.0)));
}

#[test]
fn locate_misses_the_bus_field() {
    assert_eq!(
        locate(None, Some(STOPS)),
        Err(MonitorError::ElementNotFound(PageElement::BusLocation))
    );
    assert_eq!(locate(None, None), Err(MonitorError::ElementNotFound(PageElement::BusLocation)));
}

#[test]
fn locate_misses_the_stops_field() {
    assert_eq!(
        locate(Some(BUS), None),
        Err(MonitorError::ElementNotFound(PageElement::StopLocations))
    );
}

#[test]
fn locate_reports_the_bus_field_first() {
    assert_eq!(
        locate(Some("{"), None),
        Err(MonitorError::DecodeError(PositionField::BusLocation, DecodeCategory::Eof))
    );
    assert_eq!(
        locate(Some("[]"), Some("oops")),
        Err(MonitorError::DecodeError(PositionField::BusLocation, DecodeCategory::Data))
    );
    assert_eq!(
        locate(Some("}"), Some("[]")),
        Err(MonitorError::DecodeError(PositionField::BusLocation, DecodeCategory::Syntax))
    );
}

#[test]
fn locate_reports_a_bad_stops_field() {
    assert_eq!(
        locate(Some(BUS), Some("oops")),
        Err(MonitorError::DecodeError(PositionField::StopLocations, DecodeCategory::Syntax))
    );
    assert_eq!(
        locate(Some(BUS), Some("[")),
        Err(MonitorError::DecodeError(PositionField::StopLocations, DecodeCategory::Eof))
    );
    assert_eq!(
        locate(Some(BUS), Some(BUS)),
        Err(MonitorError::DecodeError(PositionField::StopLocations, DecodeCategory::Data))
    );
}
