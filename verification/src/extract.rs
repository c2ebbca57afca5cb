//! The positions of the bus and of the stop, out of two fields of the page
//! that hold them as JSON.

use vstd::prelude::*;
use crate::binary64::Binary64;
use crate::error::{DecodeCategory, MonitorError, PageElement, PositionField};
use crate::json::{
    classify, elements, error_category, json_document, json_elements, json_member,
    json_number, member, number_bits, parse_document,
};

verus! {

/// A point on the globe: latitude and longitude in degrees.
#[derive(Clone, Copy, Debug, PartialEq, Eq, Structural)]
pub struct Position {
    pub latitude: Binary64,
    pub longitude: Binary64,
}

/// The bus and the stop that it is measured against.
#[derive(Clone, Copy, Debug, PartialEq, Eq, Structural)]
pub struct Located {
    pub bus: Position,
    pub stop: Position,
}

/// The number that a document holds under a key, if it holds one there.
pub open spec fn number_member(value: serde_json::Value, key: Seq<char>) -> Option<u64> {
    match json_member(value, key) {
        Some(inner) => json_number(inner),
        None => None,
    }
}

/// The position that a document records: an object with a number under
/// `Latitude` and one under `Longitude`. Other members do not count.
pub open spec fn position_in(value: serde_json::Value) -> Result<Position, DecodeCategory> {
    match (number_member(value, "Latitude"@), number_member(value, "Longitude"@)) {
        (Some(latitude), Some(longitude)) => Ok(
            Position {
                latitude: Binary64 { bits: latitude },
                longitude: Binary64 { bits: longitude },
            },
        ),
        _ => Err(DecodeCategory::Data),
    }
}

/// The positions that a document lists: an array whose elements each
/// record a position.
pub open spec fn positions_in(value: serde_json::Value) -> Result<Seq<Position>, DecodeCategory> {
    match json_elements(value) {
        Some(items) => if forall|i: int|
            0 <= i < items.len() ==> position_in(#[trigger] items[i]) is Ok {
            Ok(Seq::new(items.len(), |i: int| position_in(items[i]).unwrap()))
        } else {
            Err(DecodeCategory::Data)
        },
        None => Err(DecodeCategory::Data),
    }
}

/// The position that a text records.
pub open spec fn decoded_position(text: Seq<char>) -> Result<Position, DecodeCategory> {
    match json_document(text) {
        Ok(value) => position_in(value),
        Err(error) => Err(error_category(error)),
    }
}

/// The positions that a text lists.
pub open spec fn decoded_positions(text: Seq<char>) -> Result<Seq<Position>, DecodeCategory> {
    match json_document(text) {
        Ok(value) => positions_in(value),
        Err(error) => Err(error_category(error)),
    }
}

/// The stop to measure against: the first of the list.
pub open spec fn first_of(stops: Seq<Position>) -> Result<Position, MonitorError> {
    if stops.len() == 0 {
        Err(MonitorError::NoStopsFound)
    } else {
        Ok(stops[0])
    }
}

/// What the two fields give: the bus and the first stop, or the first thing
/// that is wrong, the bus field before the stops field.
pub open spec fn located(bus_field: Option<Seq<char>>, stops_field: Option<Seq<char>>) -> Result<
    Located,
    MonitorError,
> {
    match bus_field {
        None => Err(MonitorError::ElementNotFound(PageElement::BusLocation)),
        Some(bus_text) => match decoded_position(bus_text) {
            Err(category) => Err(MonitorError::DecodeError(PositionField::BusLocation, category)),
            Ok(bus) => match stops_field {
                None => Err(MonitorError::ElementNotFound(PageElement::StopLocations)),
                Some(stops_text) => match decoded_positions(stops_text) {
                    Err(category) => Err(
                        MonitorError::DecodeError(PositionField::StopLocations, category),
                    ),
                    Ok(stops) => match first_of(stops) {
                        Err(error) => Err(error),
                        Ok(stop) => Ok(Located { bus, stop }),
                    },
                },
            },
        },
    }
}

/// Members other than the two coordinates do not count: documents that
/// hold the same under `Latitude` and under `Longitude` record the same
/// position, whatever else they hold.
pub proof fn lemma_other_members_do_not_count(one: serde_json::Value, other: serde_json::Value)
    requires
        number_member(one, "Latitude"@) == number_member(other, "Latitude"@),
        number_member(one, "Longitude"@) == number_member(other, "Longitude"@),
    ensures
        position_in(one) == position_in(other),
{
}

/// Of a list of stops only the first counts, and an empty list is an error.
pub proof fn lemma_only_the_first_stop_counts(stops: Seq<Position>, others: Seq<Position>)
    requires
        stops.len() > 0,
        others.len() > 0,
        stops[0] == others[0],
    ensures
        first_of(stops) == first_of(others),
        first_of(stops) is Ok,
        first_of(Seq::<Position>::empty()) == Err::<Position, MonitorError>(
            MonitorError::NoStopsFound,
        ),
{
}

/// The text of a field that may be missing.
pub open spec fn field_text(field: Option<&str>) -> Option<Seq<char>> {
    match field {
        Some(text) => Some(text@),
        None => None,
    }
}

/// The number under a key of a document.
fn read_number(value: &serde_json::Value, key: &str) -> (found: Option<u64>)
    ensures
        found == number_member(*value, key@),
{
    match member(value, key) {
        Some(inner) => number_bits(inner),
        None => None,
    }
}

/// Reads the position that a document records.
pub fn read_position(value: &serde_json::Value) -> (read: Result<Position, DecodeCategory>)
    ensures
        read == position_in(*value),
{
    match read_number(value, "Latitude") {
        Some(latitude) => match read_number(value, "Longitude") {
            Some(longitude) => Ok(
                Position {
                    latitude: Binary64 { bits: latitude },
                    longitude: Binary64 { bits: longitude },
                },
            ),
            None => Err(DecodeCategory::Data),
        },
        None => Err(DecodeCategory::Data),
    }
}

/// Reads the positions that a document lists.
pub fn read_positions(value: &serde_json::Value) -> (read: Result<Vec<Position>, DecodeCategory>)
    ensures
        match read {
            Ok(positions) => positions_in(*value) == Ok::<Seq<Position>, DecodeCategory>(
                positions@,
            ),
            Err(category) => positions_in(*value) == Err::<Seq<Position>, DecodeCategory>(
                category,
            ),
        },
{
    match elements(value) {
        Some(items) => {
            let mut positions: Vec<Position> = Vec::new();
            let mut index: usize = 0;
            while index < items.len()
                invariant
                    json_elements(*value) == Some(items@),
                    index <= items@.len(),
                    positions@.len() == index,
                    forall|i: int|
                        0 <= i < index ==> position_in(#[trigger] items@[i]) == Ok::<
                            Position,
                            DecodeCategory,
                        >(positions@[i]),
                decreases items@.len() - index,
            {
                match read_position(&items[index]) {
                    Ok(position) => {
                        positions.push(position);
                    },
                    Err(_) => {
                        assert(position_in(items@[index as int]) is Err);
                        return Err(DecodeCategory::Data);
                    },
                }
                index = index + 1;
            }
            assert(positions@ =~= Seq::new(items@.len(), |i: int| position_in(items@[i]).unwrap()));
            Ok(positions)
        },
        None => Err(DecodeCategory::Data),
    }
}

/// Decodes the text of the bus field.
pub fn decode_position(text: &str) -> (decoded: Result<Position, DecodeCategory>)
    ensures
        decoded == decoded_position(text@),
{
    match parse_document(text) {
        Ok(value) => read_position(&value),
        Err(error) => Err(classify(&error)),
    }
}

/// Decodes the text of the stops field.
pub fn decode_positions(text: &str) -> (decoded: Result<Vec<Position>, DecodeCategory>)
    ensures
        match decoded {
            Ok(positions) => decoded_positions(text@) == Ok::<Seq<Position>, DecodeCategory>(
                positions@,
            ),
            Err(category) => decoded_positions(text@) == Err::<Seq<Position>, DecodeCategory>(
                category,
            ),
        },
{
    match parse_document(text) {
        Ok(value) => read_positions(&value),
        Err(error) => Err(classify(&error)),
    }
}

/// The stop to measure against. An empty list is an error, never an index
/// out of range.
pub fn first_stop(stops: &Vec<Position>) -> (first: Result<Position, MonitorError>)
    ensures
        first == first_of(stops@),
        stops@.len() == 0 <==> first == Err::<Position, MonitorError>(MonitorError::NoStopsFound),
        stops@.len() > 0 ==> first == Ok::<Position, MonitorError>(stops@[0]),
{
    if stops.len() == 0 {
        Err(MonitorError::NoStopsFound)
    } else {
        Ok(stops[0])
    }
}

/// Finds the bus and the stop in the two fields of the page; `None` stands
/// for a field that the page does not have.
pub fn locate(bus_field: Option<&str>, stops_field: Option<&str>) -> (found: Result<
    Located,
    MonitorError,
>)
    ensures
        found == located(field_text(bus_field), field_text(stops_field)),
{
    let bus = match bus_field {
        Some(text) => match decode_position(text) {
            Ok(bus) => bus,
            Err(category) => {
                return Err(MonitorError::DecodeError(PositionField::BusLocation, category));
            },
        },
        None => {
            return Err(MonitorError::ElementNotFound(PageElement::BusLocation));
        },
    };
    let stops = match stops_field {
        Some(text) => match decode_positions(text) {
            Ok(stops) => stops,
            Err(category) => {
                return Err(MonitorError::DecodeError(PositionField::StopLocations, category));
            },
        },
        None => {
            return Err(MonitorError::ElementNotFound(PageElement::StopLocations));
        },
    };
    match first_stop(&stops) {
        Ok(stop) => Ok(Located { bus, stop }),
        Err(error) => Err(error),
    }
}

} // verus!
