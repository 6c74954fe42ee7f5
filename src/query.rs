//! The two request URLs: the geocoding query and the parcel query.
use vstd::prelude::*;
use crate::geocode::{joined_box, BoundingBox};

verus! {

/// The geocoding endpoint.
pub const GEOCODE_URL: &'static str = "https://maps.googleapis.com/maps/api/geocode/json?";

/// The parcel feature endpoint.
pub const PARCELS_URL: &'static str = "https://services1.arcgis.com/BkFxaEFNwHqX3tAw/arcgis/rest/services/FS_VCGI_OPENDATA_Cadastral_VTPARCELS_poly_standardized_parcels_SP_v1/FeatureServer/0/query?";

/// The URL that the `url` crate builds from a base and query pairs, with the
/// pairs percent-encoded; `None` where the base is not an absolute URL.
pub uninterp spec fn url_with_query(base: Seq<char>, pairs: Seq<(Seq<char>, Seq<char>)>) -> Option<
    Seq<char>,
>;

/// The query pairs as texts.
pub open spec fn pairs_view(pairs: Seq<(String, String)>) -> Seq<(Seq<char>, Seq<char>)> {
    pairs.map_values(|p: (String, String)| (p.0@, p.1@))
}

/// Relies on `reqwest::Url::parse_with_params` (the `url` crate's
/// `Url::parse_with_params`): parse the base, then append the pairs in order.
#[verifier::external_body]
fn build_url(base: &str, pairs: &Vec<(String, String)>) -> (r: Option<String>)
    ensures
        r is Some <==> url_with_query(base@, pairs_view(pairs@)) is Some,
        r matches Some(u) ==> url_with_query(base@, pairs_view(pairs@)) == Some(u@),
{
    match reqwest::Url::parse_with_params(base, pairs.iter()) {
        Ok(url) => Some(String::from(url)),
        Err(_) => None,
    }
}

/// The query of a geocoding request.
pub open spec fn geocode_pairs(address: Seq<char>, key: Seq<char>) -> Seq<(Seq<char>, Seq<char>)> {
    seq![("address"@, address), ("key"@, key)]
}

/// The query of a parcel request: the whole records of every parcel that
/// intersects the envelope `geometry`, in WGS 84 both ways, as JSON.
pub open spec fn parcel_pairs(geometry: Seq<char>) -> Seq<(Seq<char>, Seq<char>)> {
    seq![
        ("where"@, "1=1"@),
        ("outFields"@, "*"@),
        ("geometry"@, geometry),
        ("geometryType"@, "esriGeometryEnvelope"@),
        ("inSR"@, "4326"@),
        ("spatialRel"@, "esriSpatialRelIntersects"@),
        ("outSR"@, "4326"@),
        ("f"@, "json"@),
    ]
}

fn pair(name: &str, value: &str) -> (r: (String, String))
    ensures
        r.0@ == name@,
        r.1@ == value@,
{
    (name.to_owned(), value.to_owned())
}

/// The query pairs of a geocoding request for `address`.
pub fn geocode_params(address: &str, key: &str) -> (r: Vec<(String, String)>)
    ensures
        pairs_view(r@) == geocode_pairs(address@, key@),
{
    let r = vec![pair("address", address), pair("key", key)];
    assert(pairs_view(r@) =~= geocode_pairs(address@, key@));
    r
}

/// The query pairs of a parcel request for the box `bbox`.
pub fn parcel_params(bbox: &BoundingBox) -> (r: Vec<(String, String)>)
    ensures
        pairs_view(r@) == parcel_pairs(joined_box(bbox@)),
{
    let geometry = bbox.joined();
    let r = vec![
        pair("where", "1=1"),
        pair("outFields", "*"),
        pair("geometry", geometry.as_str()),
        pair("geometryType", "esriGeometryEnvelope"),
        pair("inSR", "4326"),
        pair("spatialRel", "esriSpatialRelIntersects"),
        pair("outSR", "4326"),
        pair("f", "json"),
    ];
    assert(pairs_view(r@) =~= parcel_pairs(joined_box(bbox@)));
    r
}

/// The URL of the geocoding request for `address`, made with the API key `key`.
pub fn geocoding_url(address: &str, key: &str) -> (r: Option<String>)
    ensures
        r is Some <==> url_with_query(GEOCODE_URL@, geocode_pairs(address@, key@)) is Some,
        r matches Some(u) ==> url_with_query(GEOCODE_URL@, geocode_pairs(address@, key@)) == Some(
            u@,
        ),
{
    build_url(GEOCODE_URL, &geocode_params(address, key))
}

/// The URL of the parcel request for the box `bbox`.
pub fn parcels_url(bbox: &BoundingBox) -> (r: Option<String>)
    ensures
        r is Some <==> url_with_query(PARCELS_URL@, parcel_pairs(joined_box(bbox@))) is Some,
        r matches Some(u) ==> url_with_query(PARCELS_URL@, parcel_pairs(joined_box(bbox@)))
            == Some(u@),
{
    build_url(PARCELS_URL, &parcel_params(bbox))
}


/// Whatever the box, the parcel query holds the same eight parameters in the
/// same order, and only the value of `geometry` (the third) depends on it.
pub proof fn parcel_query_has_fixed_parameters(g1: Seq<char>, g2: Seq<char>)
    ensures
        parcel_pairs(g1).len() == 8,
        parcel_pairs(g1)[2] == ("geometry"@, g1),
        forall|i: int| 0 <= i < 8 ==> (#[trigger] parcel_pairs(g1)[i]).0 == parcel_pairs(g2)[i].0,
        forall|i: int|
            0 <= i < 8 && i != 2 ==> #[trigger] parcel_pairs(g1)[i] == parcel_pairs(g2)[i],
{
}

} // verus!
