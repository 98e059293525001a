//! Where a request goes: the rules that turn a URL, the answer of name
//! resolution and a record of the location database into a place, and that
//! fall back to one fixed place whenever any of these is missing.
//!
//! Name resolution and the database are the caller's business.
//! [`get_real_geo`] takes them as two functions and walks through the rules.
//! A caller that cannot hand them over as functions starts with
//! [`begin_resolution`], does what the returned [`GeoStep`] asks for and
//! hands the outcome to [`after_resolution`] or [`after_lookup`], until the
//! place is known.

use vstd::prelude::*;
use crate::analyzer::{domain_of, extract_domain};
use crate::types::{GeoData, GeoDataView};

verus! {

/// Latitude of the fallback place: 20.5937 degrees, as the bits of a double.
pub const FALLBACK_LATITUDE: u64 = 0x4034_97fc_b923_a29c;

/// Longitude of the fallback place: 78.9629 degrees, as the bits of a double.
pub const FALLBACK_LONGITUDE: u64 = 0x4053_bda0_2752_5461;

/// An angle of no degrees, as the bits of a double.
pub const ZERO_DEGREES: u64 = 0;

/// An Internet address by its bytes, most significant first.
#[derive(Debug, Clone, Copy, PartialEq, Eq)]
pub enum IpAddress {
    V4([u8; 4]),
    V6([u8; 16]),
}

/// Latitude and longitude of a database record, each as the bits of a double
/// and each possibly absent.
#[derive(Debug, Clone, Copy)]
pub struct Coordinates {
    pub latitude: Option<u64>,
    pub longitude: Option<u64>,
}

/// A name in one language.
#[derive(Debug, Clone)]
pub struct LocalName {
    pub language: String,
    pub name: String,
}

/// View of a [`LocalName`].
pub struct LocalNameView {
    pub language: Seq<char>,
    pub name: Seq<char>,
}

impl View for LocalName {
    type V = LocalNameView;

    open spec fn view(&self) -> LocalNameView {
        LocalNameView { language: self.language@, name: self.name@ }
    }
}

/// What the location database holds for an address, as far as it matters
/// here: the coordinates, if any, and the names of the country, none where the
/// record has no country or the country no names.
#[derive(Debug, Clone)]
pub struct CityRecord {
    pub location: Option<Coordinates>,
    pub country_names: Vec<LocalName>,
}

/// View of a [`CityRecord`].
pub struct CityRecordView {
    pub location: Option<Coordinates>,
    pub country_names: Seq<LocalNameView>,
}

impl View for CityRecord {
    type V = CityRecordView;

    open spec fn view(&self) -> CityRecordView {
        CityRecordView {
            location: self.location,
            country_names: self.country_names@.map_values(|n: LocalName| n@),
        }
    }
}

/// What to do next to find the place of a request.
#[derive(Debug)]
pub enum GeoStep {
    /// Resolve this host name to addresses.
    Resolve { host: String },
    /// Look this address up in the location database.
    Lookup { address: IpAddress },
    /// The place is known.
    Done { location: GeoData },
}

/// View of a [`GeoStep`].
pub enum GeoStepView {
    Resolve { host: Seq<char> },
    Lookup { address: IpAddress },
    Done { location: GeoDataView },
}

impl View for GeoStep {
    type V = GeoStepView;

    open spec fn view(&self) -> GeoStepView {
        match self {
            GeoStep::Resolve { host } => GeoStepView::Resolve { host: host@ },
            GeoStep::Lookup { address } => GeoStepView::Lookup { address: *address },
            GeoStep::Done { location } => GeoStepView::Done { location: location@ },
        }
    }
}

/// The view of an answer of name resolution.
pub open spec fn addresses_view(addresses: Option<Vec<IpAddress>>) -> Option<Seq<IpAddress>> {
    match addresses {
        Some(found) => Some(found@),
        None => None,
    }
}

/// The view of an outcome of the database lookup.
pub open spec fn record_view(record: Option<CityRecord>) -> Option<CityRecordView> {
    match record {
        Some(found) => Some(found@),
        None => None,
    }
}

/// The place reported when a request cannot be located.
pub open spec fn fallback() -> GeoDataView {
    GeoDataView { lat: FALLBACK_LATITUDE, lon: FALLBACK_LONGITUDE, country: "Unknown"@ }
}

/// `at` is the first entry of `names` in English.
pub open spec fn is_first_english(names: Seq<LocalNameView>, at: int) -> bool {
    &&& 0 <= at < names.len()
    &&& names[at].language == "en"@
    &&& forall|j: int| 0 <= j < at ==> (#[trigger] names[j]).language != "en"@
}

/// No entry of `names` is in English.
pub open spec fn no_english(names: Seq<LocalNameView>) -> bool {
    forall|j: int| 0 <= j < names.len() ==> (#[trigger] names[j]).language != "en"@
}

/// The country named by a record: its first English name, or `"Unknown"`.
pub open spec fn country_of(names: Seq<LocalNameView>) -> Seq<char> {
    if no_english(names) {
        "Unknown"@
    } else {
        names[choose|at: int| is_first_english(names, at)].name
    }
}

/// The place that a database record stands for: the fallback where the
/// record has no coordinates; else its coordinates, a missing one taken as
/// zero, with its country.
pub open spec fn place_of(record: CityRecordView) -> GeoDataView {
    match record.location {
        None => fallback(),
        Some(at) => GeoDataView {
            lat: match at.latitude {
                Some(bits) => bits,
                None => ZERO_DEGREES,
            },
            lon: match at.longitude {
                Some(bits) => bits,
                None => ZERO_DEGREES,
            },
            country: country_of(record.country_names),
        },
    }
}

/// The step that a URL calls for: resolving its host, unless it has none or
/// the host reads `"unknown"`.
pub open spec fn first_step(url: Seq<char>) -> GeoStepView {
    if domain_of(url) == "unknown"@ {
        GeoStepView::Done { location: fallback() }
    } else {
        GeoStepView::Resolve { host: domain_of(url) }
    }
}

/// The step that the answer of name resolution calls for: looking up the
/// first address, unless resolution failed or gave none.
pub open spec fn second_step(addresses: Option<Seq<IpAddress>>) -> GeoStepView {
    match addresses {
        Some(found) if found.len() > 0 => GeoStepView::Lookup { address: found[0] },
        _ => GeoStepView::Done { location: fallback() },
    }
}

/// The place that the outcome of the database lookup stands for.
pub open spec fn last_step(record: Option<CityRecordView>) -> GeoDataView {
    match record {
        Some(found) => place_of(found),
        None => fallback(),
    }
}

/// The fallback place.
pub fn fallback_location() -> (location: GeoData)
    ensures
        location@ == fallback(),
{
    GeoData { lat: FALLBACK_LATITUDE, lon: FALLBACK_LONGITUDE, country: "Unknown".to_string() }
}

/// The first English name among `names`, or `"Unknown"` where there is none.
pub fn english_country(names: &Vec<LocalName>) -> (country: String)
    ensures
        country@ == country_of(names@.map_values(|n: LocalName| n@)),
{
    let ghost views = names@.map_values(|n: LocalName| n@);
    let english = "en".to_string();
    let mut i: usize = 0;
    while i < names.len()
        invariant
            i <= names.len(),
            english@ == "en"@,
            views == names@.map_values(|n: LocalName| n@),
            forall|j: int| 0 <= j < i ==> (#[trigger] views[j]).language != "en"@,
        decreases names.len() - i,
    {
        if names[i].language == english {
            proof {
                lemma_first_english_is_unique(views, i as int);
            }
            return names[i].name.clone();
        }
        i += 1;
    }
    "Unknown".to_string()
}

/// At most one entry is the first English one.
pub proof fn lemma_first_english_is_unique(names: Seq<LocalNameView>, at: int)
    requires
        is_first_english(names, at),
    ensures
        !no_english(names),
        forall|other: int| is_first_english(names, other) ==> other == at,
        country_of(names) == names[at].name,
{
}

/// The step that the domain of a URL calls for: the domain `"unknown"` is
/// located at the fallback at once, any other is resolved.
pub fn step_for_domain(domain: String) -> (step: GeoStep)
    ensures
        step@ == (if domain@ == "unknown"@ {
            GeoStepView::Done { location: fallback() }
        } else {
            GeoStepView::Resolve { host: domain@ }
        }),
{
    let sentinel = "unknown".to_string();
    if domain == sentinel {
        GeoStep::Done { location: fallback_location() }
    } else {
        GeoStep::Resolve { host: domain }
    }
}

/// First step: finds the host to resolve. A URL without a host, or with the
/// host `"unknown"`, is located at the fallback at once.
pub fn begin_resolution(url_str: &str) -> (step: GeoStep)
    ensures
        step@ == first_step(url_str@),
{
    step_for_domain(extract_domain(url_str))
}

/// Second step: takes the answer of name resolution, `None` where it failed.
/// Without any address the place is the fallback; else the first address is
/// looked up.
pub fn after_resolution(addresses: Option<Vec<IpAddress>>) -> (step: GeoStep)
    ensures
        step@ == second_step(addresses_view(addresses)),
{
    match addresses {
        Some(found) => {
            if found.len() > 0 {
                GeoStep::Lookup { address: found[0] }
            } else {
                GeoStep::Done { location: fallback_location() }
            }
        },
        None => GeoStep::Done { location: fallback_location() },
    }
}

/// Last step: takes the record found for the address, `None` where the
/// lookup failed, and names the place.
pub fn after_lookup(record: Option<CityRecord>) -> (location: GeoData)
    ensures
        location@ == last_step(record_view(record)),
{
    match record {
        Some(found) => match found.location {
            Some(at) => GeoData {
                lat: match at.latitude {
                    Some(bits) => bits,
                    None => ZERO_DEGREES,
                },
                lon: match at.longitude {
                    Some(bits) => bits,
                    None => ZERO_DEGREES,
                },
                country: english_country(&found.country_names),
            },
            None => fallback_location(),
        },
        None => fallback_location(),
    }
}

/// `place` is where the rules put a request to `url` when `addresses` is
/// what name resolution answers for its host and `lookup` finds the records.
pub open spec fn located_after_resolution<L: FnOnce(IpAddress) -> Option<CityRecord>>(
    addresses: Option<Seq<IpAddress>>,
    lookup: L,
    place: GeoDataView,
) -> bool {
    match second_step(addresses) {
        GeoStepView::Lookup { address } => exists|record: Option<CityRecord>|
            call_ensures(lookup, (address,), record) && place == last_step(record_view(record)),
        _ => place == fallback(),
    }
}

/// `place` is where the rules put a request to `url` when `resolve` answers
/// for name resolution and `lookup` for the location database.
pub open spec fn located<
    R: FnOnce(String) -> Option<Vec<IpAddress>>,
    L: FnOnce(IpAddress) -> Option<CityRecord>,
>(url: Seq<char>, resolve: R, lookup: L, place: GeoDataView) -> bool {
    match first_step(url) {
        GeoStepView::Resolve { host } => exists|name: String, addresses: Option<Vec<IpAddress>>|
            name@ == host && call_ensures(resolve, (name,), addresses)
                && located_after_resolution(addresses_view(addresses), lookup, place),
        _ => place == fallback(),
    }
}

/// Finds the place of the request to `url_str`. `resolve` is asked for the
/// addresses of the host and `lookup` for the record of the first of them;
/// each answers `None` where it fails. Whatever they answer, a place comes
/// back: the fallback wherever a step has nothing to go on.
pub fn get_real_geo<R, L>(url_str: &str, resolve: R, lookup: L) -> (location: GeoData) where
    R: FnOnce(String) -> Option<Vec<IpAddress>>,
    L: FnOnce(IpAddress) -> Option<CityRecord>,

    requires
        forall|host: String| call_requires(resolve, (host,)),
        forall|address: IpAddress| call_requires(lookup, (address,)),
    ensures
        located(url_str@, resolve, lookup, location@),
        domain_of(url_str@) == "unknown"@ ==> location@ == fallback(),
        (forall|host: String, addresses: Option<Vec<IpAddress>>|
            call_ensures(resolve, (host,), addresses) ==> (addresses matches Some(found)
                ==> found@.len() == 0)) ==> location@ == fallback(),
        (forall|address: IpAddress, record: Option<CityRecord>|
            call_ensures(lookup, (address,), record) ==> (record matches Some(found)
                ==> found.location is None)) ==> location@ == fallback(),
{
    match begin_resolution(url_str) {
        GeoStep::Resolve { host } => match after_resolution(resolve(host)) {
            GeoStep::Lookup { address } => after_lookup(lookup(address)),
            GeoStep::Done { location } => location,
            GeoStep::Resolve { .. } => fallback_location(),
        },
        GeoStep::Done { location } => location,
        GeoStep::Lookup { .. } => fallback_location(),
    }
}

/// Whatever is missing on the way to a place, the place is the fallback: a
/// URL without a host, a host without an address, an address without a
/// record and a record without coordinates all end there.
pub proof fn lemma_unresolved_is_fallback(
    url: Seq<char>,
    addresses: Option<Seq<IpAddress>>,
    record: Option<CityRecordView>,
)
    ensures
        domain_of(url) == "unknown"@ ==> first_step(url) == (GeoStepView::Done {
            location: fallback(),
        }),
        addresses is None || addresses->0.len() == 0 ==> second_step(addresses) == (
        GeoStepView::Done { location: fallback() }),
        record is None || record->0.location is None ==> last_step(record) == fallback(),
{
}

} // verus!
