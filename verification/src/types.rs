//! The records that travel through an audit and their mathematical views.

use vstd::prelude::*;

verus! {

/// One network request as the capture process reports it.
#[derive(Debug, Clone)]
pub struct RawTraffic {
    pub url: String,
    pub method: String,
    pub resource_type: String,
    pub post_data: Option<String>,
}

/// View of a [`RawTraffic`].
pub struct RawTrafficView {
    pub url: Seq<char>,
    pub method: Seq<char>,
    pub resource_type: Seq<char>,
    pub post_data: Option<Seq<char>>,
}

impl View for RawTraffic {
    type V = RawTrafficView;

    open spec fn view(&self) -> RawTrafficView {
        RawTrafficView {
            url: self.url@,
            method: self.method@,
            resource_type: self.resource_type@,
            post_data: match self.post_data {
                Some(body) => Some(body@),
                None => None,
            },
        }
    }
}

/// One finding about a request: what was found and how grave it is.
#[derive(Debug, Clone)]
pub struct Violation {
    pub issue: String,
    pub severity: String,
}

/// View of a [`Violation`].
pub struct ViolationView {
    pub issue: Seq<char>,
    pub severity: Seq<char>,
}

impl View for Violation {
    type V = ViolationView;

    open spec fn view(&self) -> ViolationView {
        ViolationView { issue: self.issue@, severity: self.severity@ }
    }
}

/// The views of a list of violations, in the list's order.
pub open spec fn violation_views(list: Seq<Violation>) -> Seq<ViolationView> {
    list.map_values(|v: Violation| v@)
}

/// A place on the globe. Each angle is a number of degrees held as the bit
/// pattern of an IEEE 754 double, so that the value passes through unchanged.
#[derive(Debug, Clone)]
pub struct GeoData {
    pub lat: u64,
    pub lon: u64,
    pub country: String,
}

/// View of a [`GeoData`].
pub struct GeoDataView {
    pub lat: u64,
    pub lon: u64,
    pub country: Seq<char>,
}

impl View for GeoData {
    type V = GeoDataView;

    open spec fn view(&self) -> GeoDataView {
        GeoDataView { lat: self.lat, lon: self.lon, country: self.country@ }
    }
}

/// What a client receives for one request.
#[derive(Debug, Clone)]
pub struct TrafficUpdate {
    pub url: String,
    pub method: String,
    pub type_: String,
    pub domain: String,
    pub violations: Vec<Violation>,
    pub geo: GeoData,
    pub is_tracker: bool,
}

/// View of a [`TrafficUpdate`].
pub struct TrafficUpdateView {
    pub url: Seq<char>,
    pub method: Seq<char>,
    pub type_: Seq<char>,
    pub domain: Seq<char>,
    pub violations: Seq<ViolationView>,
    pub geo: GeoDataView,
    pub is_tracker: bool,
}

impl View for TrafficUpdate {
    type V = TrafficUpdateView;

    open spec fn view(&self) -> TrafficUpdateView {
        TrafficUpdateView {
            url: self.url@,
            method: self.method@,
            type_: self.type_@,
            domain: self.domain@,
            violations: violation_views(self.violations@),
            geo: self.geo@,
            is_tracker: self.is_tracker,
        }
    }
}

/// A message of the capture process, one per protocol line.
#[derive(Debug)]
pub enum NodeMessage {
    Status { message: String },
    Error { message: String },
    Traffic { data: RawTraffic },
}

/// View of a [`NodeMessage`].
pub enum NodeMessageView {
    Status { message: Seq<char> },
    Error { message: Seq<char> },
    Traffic { data: RawTrafficView },
}

impl View for NodeMessage {
    type V = NodeMessageView;

    open spec fn view(&self) -> NodeMessageView {
        match self {
            NodeMessage::Status { message } => NodeMessageView::Status { message: message@ },
            NodeMessage::Error { message } => NodeMessageView::Error { message: message@ },
            NodeMessage::Traffic { data } => NodeMessageView::Traffic { data: data@ },
        }
    }
}

} // verus!
