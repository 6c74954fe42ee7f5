//! The bounding box of a geocoded address: the viewport of the first result.
use vstd::prelude::*;
use vstd::string::StringExecFns;
use crate::json::{element, member, number_text, parse_document};
use crate::json::{element_of, json_view, member_of, parsed_json, JsonModel};

verus! {

/// Why no bounding box could be read from a geocoding response.
#[derive(Clone, Copy, Debug, PartialEq, Eq, Structural)]
pub enum GeocodeError {
    /// The response is not a JSON document.
    NotJson,
    /// The service answered with an `error_message`.
    ProviderError,
    /// The `results` array is empty: no location matches the address.
    NoResults,
    /// The document lacks the `results` array or a viewport coordinate.
    MissingField,
}

/// A rectangle of longitudes and latitudes, each held as the text of the
/// JSON number it was read from.
#[derive(Clone, Debug)]
pub struct BoundingBox {
    pub xmin: String,
    pub ymin: String,
    pub xmax: String,
    pub ymax: String,
}

impl BoundingBox {
    /// The four values in the order xmin, ymin, xmax, ymax.
    pub open spec fn view(&self) -> Seq<Seq<char>> {
        seq![self.xmin@, self.ymin@, self.xmax@, self.ymax@]
    }

    /// The four values, in the order xmin, ymin, xmax, ymax.
    pub fn values(&self) -> (r: [String; 4])
        ensures
            r@.len() == 4,
            r@[0]@ == self.xmin@,
            r@[1]@ == self.ymin@,
            r@[2]@ == self.xmax@,
            r@[3]@ == self.ymax@,
    {
        [self.xmin.clone(), self.ymin.clone(), self.xmax.clone(), self.ymax.clone()]
    }

    /// The four values joined by commas: `xmin,ymin,xmax,ymax`.
    pub fn joined(&self) -> (r: String)
        ensures
            r@ == joined_box(self@),
    {
        let mut s = self.xmin.clone();
        s.append(",");
        s.append(self.ymin.as_str());
        s.append(",");
        s.append(self.xmax.as_str());
        s.append(",");
        s.append(self.ymax.as_str());
        s
    }
}

/// Four values joined by commas, in their order.
pub open spec fn joined_box(b: Seq<Seq<char>>) -> Seq<char> {
    b[0] + ","@ + b[1] + ","@ + b[2] + ","@ + b[3]
}

/// The viewport of the first result of a geocoding document.
pub open spec fn viewport_of(doc: JsonModel) -> Option<JsonModel> {
    match member_of(doc, "results"@) {
        Some(results) => match element_of(results, 0) {
            Some(first) => match member_of(first, "geometry"@) {
                Some(geometry) => member_of(geometry, "viewport"@),
                None => None,
            },
            None => None,
        },
        None => None,
    }
}

/// The text of the number at `corner.axis` of a viewport.
pub open spec fn coordinate_of(viewport: JsonModel, corner: Seq<char>, axis: Seq<char>) -> Option<
    Seq<char>,
> {
    match member_of(viewport, corner) {
        Some(c) => match member_of(c, axis) {
            Some(JsonModel::Number(t)) => Some(t),
            _ => None,
        },
        None => None,
    }
}

/// The bounding box `[sw.lng, sw.lat, ne.lng, ne.lat]` of a viewport, where
/// all four are numbers.
pub open spec fn box_of_viewport(viewport: JsonModel) -> Option<Seq<Seq<char>>> {
    let xmin = coordinate_of(viewport, "southwest"@, "lng"@);
    let ymin = coordinate_of(viewport, "southwest"@, "lat"@);
    let xmax = coordinate_of(viewport, "northeast"@, "lng"@);
    let ymax = coordinate_of(viewport, "northeast"@, "lat"@);
    if xmin is Some && ymin is Some && xmax is Some && ymax is Some {
        Some(seq![xmin->0, ymin->0, xmax->0, ymax->0])
    } else {
        None
    }
}

/// What a geocoding document yields: a provider error, no results, the box
/// of the first result's viewport, or a missing field.
pub open spec fn box_of_document(doc: JsonModel) -> Result<Seq<Seq<char>>, GeocodeError> {
    if member_of(doc, "error_message"@) is Some {
        Err(GeocodeError::ProviderError)
    } else {
        match member_of(doc, "results"@) {
            Some(JsonModel::Array(items)) => if items.len() == 0 {
                Err(GeocodeError::NoResults)
            } else {
                match viewport_of(doc) {
                    Some(v) => match box_of_viewport(v) {
                        Some(b) => Ok(b),
                        None => Err(GeocodeError::MissingField),
                    },
                    None => Err(GeocodeError::MissingField),
                }
            },
            _ => Err(GeocodeError::MissingField),
        }
    }
}

/// What the text of a geocoding response yields.
pub open spec fn box_of_response(text: Seq<char>) -> Result<Seq<Seq<char>>, GeocodeError> {
    match parsed_json(text) {
        Some(doc) => box_of_document(doc),
        None => Err(GeocodeError::NotJson),
    }
}

/// Whether a result of the library holds exactly the outcome `spec`.
pub open spec fn box_result_is(
    r: Result<BoundingBox, GeocodeError>,
    spec: Result<Seq<Seq<char>>, GeocodeError>,
) -> bool {
    match spec {
        Ok(b) => r matches Ok(x) && x@ == b,
        Err(e) => r matches Err(f) && f == e,
    }
}

fn coordinate(viewport: &serde_json::Value, corner: &str, axis: &str) -> (r: Option<String>)
    ensures
        r is Some <==> coordinate_of(json_view(*viewport), corner@, axis@) is Some,
        r matches Some(t) ==> coordinate_of(json_view(*viewport), corner@, axis@) == Some(t@),
{
    match member(viewport, corner) {
        Some(c) => match member(c, axis) {
            Some(n) => number_text(n),
            None => None,
        },
        None => None,
    }
}

/// Reads the bounding box from a parsed geocoding document.
pub fn parse_geocoding(json: &serde_json::Value) -> (r: Result<BoundingBox, GeocodeError>)
    ensures
        box_result_is(r, box_of_document(json_view(*json))),
{
    if member(json, "error_message").is_some() {
        return Err(GeocodeError::ProviderError);
    }
    let results = match member(json, "results") {
        Some(results) => results,
        None => return Err(GeocodeError::MissingField),
    };
    let first = match element(results, 0) {
        Some(first) => first,
        None => {
            // no first element: an empty array, or no array at all
            if results.is_array() {
                return Err(GeocodeError::NoResults);
            } else {
                return Err(GeocodeError::MissingField);
            }
        },
    };
    let viewport = match member(first, "geometry") {
        Some(geometry) => match member(geometry, "viewport") {
            Some(viewport) => viewport,
            None => return Err(GeocodeError::MissingField),
        },
        None => return Err(GeocodeError::MissingField),
    };
    let xmin = coordinate(viewport, "southwest", "lng");
    let ymin = coordinate(viewport, "southwest", "lat");
    let xmax = coordinate(viewport, "northeast", "lng");
    let ymax = coordinate(viewport, "northeast", "lat");
    match (xmin, ymin, xmax, ymax) {
        (Some(xmin), Some(ymin), Some(xmax), Some(ymax)) => Ok(BoundingBox { xmin, ymin, xmax, ymax }),
        _ => Err(GeocodeError::MissingField),
    }
}


/// Reads the bounding box from the text of a geocoding response.
pub fn parse_geocoding_response(text: &str) -> (r: Result<BoundingBox, GeocodeError>)
    ensures
        box_result_is(r, box_of_response(text@)),
{
    match parse_document(text) {
        Ok(json) => parse_geocoding(&json),
        Err(_) => Err(GeocodeError::NotJson),
    }
}


/// For a geocoding document without an `error_message`, whose `results`
/// array is not empty and whose first viewport holds four numbers, the box is
/// `[sw.lng, sw.lat, ne.lng, ne.lat]`, each as the number's text.
pub proof fn box_is_viewport_corners(
    doc: JsonModel,
    sw_lng: Seq<char>,
    sw_lat: Seq<char>,
    ne_lng: Seq<char>,
    ne_lat: Seq<char>,
)
    requires
        member_of(doc, "error_message"@) is None,
        member_of(doc, "results"@) matches Some(JsonModel::Array(items)) && items.len() > 0,
        viewport_of(doc) is Some,
        coordinate_of(viewport_of(doc)->0, "southwest"@, "lng"@) == Some(sw_lng),
        coordinate_of(viewport_of(doc)->0, "southwest"@, "lat"@) == Some(sw_lat),
        coordinate_of(viewport_of(doc)->0, "northeast"@, "lng"@) == Some(ne_lng),
        coordinate_of(viewport_of(doc)->0, "northeast"@, "lat"@) == Some(ne_lat),
    ensures
        box_of_document(doc) == Ok::<Seq<Seq<char>>, GeocodeError>(
            seq![sw_lng, sw_lat, ne_lng, ne_lat],
        ),
{
}

} // verus!
