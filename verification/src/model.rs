//! The data model: cities, the API credential, the retrieved weather
//! snapshot, and the workflow's error kinds.
//!
//! Coordinates and temperatures are carried as the decimal text in which
//! the configuration and the retrieval collaborator delivered them: the
//! core never computes with them, it only selects, persists and renders
//! them, so the text is the faithful representation.

use vstd::prelude::*;
use vstd::string::*;

verus! {

/// A city candidate: name, country code, and the coordinate texts.
#[derive(Clone, Debug, PartialEq, Eq)]
pub struct City {
    pub name: String,
    pub country: String,
    pub lat: String,
    pub lon: String,
}

/// The API credential record; read-only for the workflow.
#[derive(Clone, Debug, PartialEq, Eq)]
pub struct ApiKey {
    pub key: String,
}

/// One retrieved weather observation, consumed read-only by the renderer.
#[derive(Clone, Debug, PartialEq, Eq)]
pub struct WeatherSnapshot {
    pub description: String,
    pub temperature: String,
    pub feels_like: String,
    pub pressure: u32,
    pub visibility: u32,
    pub humidity: u32,
    pub wind_speed: String,
    pub cloud_cover: u32,
}

/// The terminal failures of one run.
#[derive(Clone, Copy, Debug, PartialEq, Eq, Structural)]
pub enum WorkflowError {
    /// A backing store could not be read or did not parse as JSON.
    ConfigUnavailable,
    /// The store held JSON of the wrong shape for the requested mode.
    ConfigShapeMismatch,
    /// The interactive selection input was not an integer.
    InvalidSelection,
    /// The selection integer was outside the candidate list's bounds.
    SelectionOutOfRange,
    /// The weather collaborator failed; never produced by the core itself.
    RetrievalFailure,
}

/// Two cities carry the same data, field for field.
pub open spec fn city_like(a: City, b: City) -> bool {
    &&& a.name@ == b.name@
    &&& a.country@ == b.country@
    &&& a.lat@ == b.lat@
    &&& a.lon@ == b.lon@
}

/// The structural caption under which a candidate is displayed.
pub open spec fn city_caption(c: City) -> Seq<char> {
    "City { name: \""@ + c.name@ + "\", country: \""@ + c.country@ + "\", lat: "@ + c.lat@
        + ", lon: "@ + c.lon@ + " }"@
}

impl City {
    /// A copy that provably carries the same data.
    pub fn duplicate(&self) -> (c: City)
        ensures
            city_like(c, *self),
    {
        City {
            name: self.name.clone(),
            country: self.country.clone(),
            lat: self.lat.clone(),
            lon: self.lon.clone(),
        }
    }

    /// Renders the caption under which this candidate is displayed.
    pub fn caption(&self) -> (r: String)
        ensures
            r@ == city_caption(*self),
    {
        let mut s = "City { name: \"".to_owned();
        s.append(self.name.as_str());
        s.append("\", country: \"");
        s.append(self.country.as_str());
        s.append("\", lat: ");
        s.append(self.lat.as_str());
        s.append(", lon: ");
        s.append(self.lon.as_str());
        s.append(" }");
        proof {
            assert(s@ =~= city_caption(*self));
        }
        s
    }
}

} // verus!
