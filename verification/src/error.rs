//! What can end the monitor.

use vstd::prelude::*;

verus! {

/// Why a text could not be decoded.
#[derive(Clone, Copy, Debug, PartialEq, Eq, Structural)]
pub enum DecodeCategory {
    /// Bytes could not be read.
    Io,
    /// The text is not JSON.
    Syntax,
    /// The text is JSON of another shape than the one asked for.
    Data,
    /// The text ends before the JSON does.
    Eof,
}

/// A part of the page that the monitor needs.
#[derive(Clone, Copy, Debug, PartialEq, Eq, Structural)]
pub enum PageElement {
    Window,
    Document,
    BusLocation,
    StopLocations,
    RouteInfo,
    FirstRow,
    FirstColumn,
    MapContainer,
}

/// A field of the page that holds positions as JSON.
#[derive(Clone, Copy, Debug, PartialEq, Eq, Structural)]
pub enum PositionField {
    BusLocation,
    StopLocations,
}

/// Each error ends the run: none is retried.
#[derive(Clone, Copy, Debug, PartialEq, Eq, Structural)]
pub enum MonitorError {
    /// A part of the page is missing.
    ElementNotFound(PageElement),
    /// A field does not hold what it should.
    DecodeError(PositionField, DecodeCategory),
    /// The list of stops is empty.
    NoStopsFound,
    /// The page refused a change of style.
    StyleMutationFailed,
    /// The page refused to reload.
    NavigationFailed,
}

impl DecodeCategory {
    pub open spec fn name_text(self) -> Seq<char> {
        match self {
            DecodeCategory::Io => "Io"@,
            DecodeCategory::Syntax => "Syntax"@,
            DecodeCategory::Data => "Data"@,
            DecodeCategory::Eof => "Eof"@,
        }
    }

    pub fn name(&self) -> (name: &'static str)
        ensures
            name@ == self.name_text(),
    {
        match self {
            DecodeCategory::Io => "Io",
            DecodeCategory::Syntax => "Syntax",
            DecodeCategory::Data => "Data",
            DecodeCategory::Eof => "Eof",
        }
    }
}

impl PageElement {
    pub open spec fn missing_text(self) -> Seq<char> {
        match self {
            PageElement::Window => "Window not found"@,
            PageElement::Document => "Document not found"@,
            PageElement::BusLocation => "Bus location element not found"@,
            PageElement::StopLocations => "Stop locations element not found"@,
            PageElement::RouteInfo => "Route info element not found"@,
            PageElement::FirstRow => "No 1st row"@,
            PageElement::FirstColumn => "No 1st col in 1st row"@,
            PageElement::MapContainer => "Map element not found"@,
        }
    }

    /// What to say when the element is missing.
    pub fn missing(&self) -> (text: &'static str)
        ensures
            text@ == self.missing_text(),
    {
        match self {
            PageElement::Window => "Window not found",
            PageElement::Document => "Document not found",
            PageElement::BusLocation => "Bus location element not found",
            PageElement::StopLocations => "Stop locations element not found",
            PageElement::RouteInfo => "Route info element not found",
            PageElement::FirstRow => "No 1st row",
            PageElement::FirstColumn => "No 1st col in 1st row",
            PageElement::MapContainer => "Map element not found",
        }
    }
}

impl PositionField {
    /// The element that holds the field.
    pub open spec fn element(self) -> PageElement {
        match self {
            PositionField::BusLocation => PageElement::BusLocation,
            PositionField::StopLocations => PageElement::StopLocations,
        }
    }

    pub open spec fn decoding_text(self) -> Seq<char> {
        match self {
            PositionField::BusLocation => "Error decoding bus location: "@,
            PositionField::StopLocations => "Error decoding stop locations: "@,
        }
    }

    pub fn decoding(&self) -> (text: &'static str)
        ensures
            text@ == self.decoding_text(),
    {
        match self {
            PositionField::BusLocation => "Error decoding bus location: ",
            PositionField::StopLocations => "Error decoding stop locations: ",
        }
    }
}

impl MonitorError {
    pub open spec fn message_text(self) -> Seq<char> {
        match self {
            MonitorError::ElementNotFound(element) => element.missing_text(),
            MonitorError::DecodeError(field, category) => field.decoding_text()
                + category.name_text(),
            MonitorError::NoStopsFound => "No stop locations found"@,
            MonitorError::StyleMutationFailed => "Unknown error changing map border style"@,
            MonitorError::NavigationFailed => "Unknown error reloading page"@,
        }
    }

    /// The message of the error.
    pub fn message(&self) -> (text: String)
        ensures
            text@ == self.message_text(),
    {
        match self {
            MonitorError::ElementNotFound(element) => element.missing().to_owned(),
            MonitorError::DecodeError(field, category) => {
                let mut text = field.decoding().to_owned();
                text.append(category.name());
                text
            },
            MonitorError::NoStopsFound => "No stop locations found".to_owned(),
            MonitorError::StyleMutationFailed => "Unknown error changing map border style".to_owned(),
            MonitorError::NavigationFailed => "Unknown error reloading page".to_owned(),
        }
    }

    /// The message with which the run ends: what the page said of the
    /// failure, or else the error's own message.
    pub fn report(&self, said: Option<String>) -> (text: String)
        ensures
            text@ == match said {
                Some(words) => words@,
                None => self.message_text(),
            },
    {
        match said {
            Some(words) => words,
            None => self.message(),
        }
    }
}

} // verus!
