use bus_proximity::distance::{AlertTier, Distance};
use bus_proximity::error::{MonitorError, PageElement};
use bus_proximity::feedback::{plan_feedback, PageSurvey, DISTANCE_CAPTION, PAGE_RELOAD_TIMEOUT};
use bus_proximity::flash::{FlashPhase, FlashState};

fn distance(meters: f64) -> Distance {
    Distance::from_bits(meters.to_bits())
}

const WHOLE_PAGE: PageSurvey =
    PageSurvey { route_info: true, first_row: true, first_column: true, map: true };

const PAGE_WITHOUT_MAP: PageSurvey =
    PageSurvey { route_info: true, first_row: true, first_column: true, map: false };

#[test]
fn far_bus_gets_a_label_and_a_reload() {
    let feedback = plan_feedback(&distance(1500.0), &WHOLE_PAGE).unwrap();
    assert_eq!(feedback.label, "1.5 kilometers");
    assert_eq!(feedback.tier, AlertTier::Far);
    assert_eq!(feedback.state, FlashState::Idle);
    assert_eq!(feedback.flash_interval, None);
    assert_eq!(feedback.reload_delay, 60000);
}

#[test]
fn far_bus_needs_no_map() {
    let feedback = plan_feedback(&distance(750.0), &PAGE_WITHOUT_MAP).unwrap();
    assert_eq!(feedback.label, "750 meters");
    assert_eq!(feedback.flash_interval, None);
    assert_eq!(feedback.reload_delay, PAGE_RELOAD_TIMEOUT);
}

#[test]
fn close_bus_flashes_slowly() {
    let feedback = plan_feedback(&distance(500.0), &WHOLE_PAGE).unwrap();
    assert_eq!(feedback.label, "500 meters");
    assert_eq!(feedback.tier, AlertTier::Close);
    assert_eq!(feedback.state, FlashState::Flashing(FlashPhase::Off));
    assert_eq!(feedback.flash_interval, Some(500));
    assert_eq!(feedback.reload_delay, 60000);
}

#[test]
fn closer_bus_flashes_fast() {
    let feedback = plan_feedback(&distance(249.6), &WHOLE_PAGE).unwrap();
    assert_eq!(feedback.label, "250 meters");
    assert_eq!(feedback.tier, AlertTier::Closer);
    assert_eq!(feedback.flash_interval, Some(200));
    assert_eq!(feedback.reload_delay, 60000);
}

#[test]
fn missing_anchor_stops_the_plan() {
    for meters in [100.0, 500.0, 5000.0] {
        for map in [false, true] {
            let bare = PageSurvey { route_info: false, first_row: false, first_column: false, map };
            assert_eq!(
                plan_feedback(&distance(meters), &bare).err(),
                Some(MonitorError::ElementNotFound(PageElement::RouteInfo))
            );
            let no_row = PageSurvey { route_info: true, first_row: false, first_column: false, map };
            assert_eq!(
                plan_feedback(&distance(meters), &no_row).err(),
                Some(MonitorError::ElementNotFound(PageElement::FirstRow))
            );
            let no_column = PageSurvey { route_info: true, first_row: true, first_column: false, map };
            assert_eq!(
                plan_feedback(&distance(meters), &no_column).err(),
                Some(MonitorError::ElementNotFound(PageElement::FirstColumn))
            );
        }
    }
}

#[test]
fn survey_names_the_first_missing_part() {
    assert_eq!(WHOLE_PAGE.first_missing(AlertTier::Closer), None);
    assert_eq!(PAGE_WITHOUT_MAP.first_missing(AlertTier::Far), None);
    assert_eq!(PAGE_WITHOUT_MAP.first_missing(AlertTier::Close), Some(PageElement::MapContainer));
    assert_eq!(PAGE_WITHOUT_MAP.first_missing(AlertTier::Closer), Some(PageElement::MapContainer));
}

#[test]
fn missing_map_stops_a_flashing_plan() {
    assert_eq!(
        plan_feedback(&distance(500.0), &PAGE_WITHOUT_MAP).err(),
        Some(MonitorError::ElementNotFound(PageElement::MapContainer))
    );
    assert_eq!(
        plan_feedback(&distance(10.0), &PAGE_WITHOUT_MAP).err(),
        Some(MonitorError::ElementNotFound(PageElement::MapContainer))
    );
}

#[test]
fn caption_stands_before_the_label() {
    assert_eq!(DISTANCE_CAPTION, "Distance:");
}
