//! The classifier: what one request reveals about transport security,
//! tracking and leaked e-mail addresses.
//!
//! [`classify`] judges a request whose place is already known;
//! [`analyze_traffic`] also finds the place, through the rules of
//! [`crate::geo`].

use vstd::prelude::*;
use crate::geo::{get_real_geo, located, CityRecord, IpAddress};
use crate::text::{chars_of, contains, contains_chars, is_prefix, is_substring, lowercase_of,
    starts_with, to_lowercase};
use crate::types::{GeoData, GeoDataView, RawTraffic, RawTrafficView, TrafficUpdate,
    TrafficUpdateView, Violation, ViolationView, violation_views};

verus! {

/// The host that `url::Url::parse` followed by `Url::host_str` finds in a
/// text: `None` where the text is no absolute URL or the URL has no host.
pub uninterp spec fn url_host(url: Seq<char>) -> Option<Seq<char>>;

/// The text that `urlencoding::decode` makes of a percent-encoded text:
/// `None` where the decoded bytes are not UTF-8.
pub uninterp spec fn percent_decoded(text: Seq<char>) -> Option<Seq<char>>;

/// Whether the `regex` crate finds a match of `pattern` anywhere in `text`:
/// `None` where `Regex::new` does not accept the pattern.
pub uninterp spec fn regex_match(pattern: Seq<char>, text: Seq<char>) -> Option<bool>;

/// The view of an optional string.
pub open spec fn option_view(text: Option<String>) -> Option<Seq<char>> {
    match text {
        Some(t) => Some(t@),
        None => None,
    }
}

/// Calls `url::Url::parse` and, on the parsed URL, `Url::host_str`. Trusted:
/// the host handed back, or its absence, is what [`url_host`] names for the
/// same characters.
#[verifier::external_body]
fn parse_host(url: &str) -> (host: Option<String>)
    ensures
        option_view(host) == url_host(url@),
{
    match url::Url::parse(url) {
        Ok(parsed) => match parsed.host_str() {
            Some(host) => Some(host.to_string()),
            None => None,
        },
        Err(_) => None,
    }
}

/// Calls `urlencoding::decode`. Trusted: the decoded text, or the failure, is
/// what [`percent_decoded`] names for the same characters.
#[verifier::external_body]
fn percent_decode(text: &str) -> (decoded: Option<String>)
    ensures
        option_view(decoded) == percent_decoded(text@),
{
    match urlencoding::decode(text) {
        Ok(decoded) => Some(decoded.into_owned()),
        Err(_) => None,
    }
}

/// Calls `regex::Regex::new` on the pattern and `Regex::is_match` on the
/// text. Trusted: the answer, or the pattern's refusal, is what
/// [`regex_match`] names for the same pattern and text.
#[verifier::external_body]
fn regex_is_match(pattern: &str, text: &str) -> (found: Option<bool>)
    ensures
        found == regex_match(pattern@, text@),
{
    match regex::Regex::new(pattern) {
        Ok(compiled) => Some(compiled.is_match(text)),
        Err(_) => None,
    }
}

/// The domain reported for a URL: its host, or `"unknown"` where it has none.
pub open spec fn domain_of(url: Seq<char>) -> Seq<char> {
    match url_host(url) {
        Some(host) => host,
        None => "unknown"@,
    }
}

/// The host of a parsed URL, or the sentinel `"unknown"` in its place.
pub fn host_or_unknown(host: Option<String>) -> (domain: String)
    ensures
        domain@ == (match host {
            Some(h) => h@,
            None => "unknown"@,
        }),
{
    match host {
        Some(h) => h,
        None => "unknown".to_string(),
    }
}

/// The host of `url_str`, or `"unknown"` where it cannot be parsed or has no
/// host. Total: every text has a domain.
pub fn extract_domain(url_str: &str) -> (domain: String)
    ensures
        domain@ == domain_of(url_str@),
{
    host_or_unknown(parse_host(url_str))
}

/// The fragments of a URL that give away an analytics, advertising or
/// telemetry provider.
pub const TRACKER_KEYWORDS: [&'static str; 15] = [
    "analytics",
    "pixel",
    "tracker",
    "telemetry",
    "collect",
    "facebook",
    "tiktok",
    "adsystem",
    "googleads",
    "doubleclick",
    "clarity",
    "hotjar",
    "fbevents",
    "measure",
    "beacon",
];

/// Some tracker keyword occurs in `text`.
pub open spec fn holds_keyword(text: Seq<char>) -> bool {
    exists|k: int|
        0 <= k < TRACKER_KEYWORDS@.len() && is_substring((#[trigger] TRACKER_KEYWORDS@[k])@, text)
}

/// Some tracker keyword occurs in the lowercase form of `url`.
pub open spec fn mentions_tracker(url: Seq<char>) -> bool {
    holds_keyword(lowercase_of(url))
}

/// Whether some tracker keyword occurs in `text`, letter for letter.
pub fn has_keyword(text: &str) -> (found: bool)
    ensures
        found == holds_keyword(text@),
{
    let chars = chars_of(text);
    let mut i: usize = 0;
    while i < TRACKER_KEYWORDS.len()
        invariant
            i <= TRACKER_KEYWORDS@.len(),
            chars@ == text@,
            forall|k: int|
                0 <= k < i ==> !is_substring((#[trigger] TRACKER_KEYWORDS@[k])@, chars@),
        decreases TRACKER_KEYWORDS@.len() - i,
    {
        let keyword = chars_of(TRACKER_KEYWORDS[i]);
        if contains_chars(&chars, &keyword) {
            return true;
        }
        i += 1;
    }
    false
}

/// Whether `url`, read without regard to case, holds a tracker keyword.
pub fn is_tracker(url: &str) -> (found: bool)
    ensures
        found == mentions_tracker(url@),
{
    let lower = to_lowercase(url);
    has_keyword(lower.as_str())
}

/// The pattern of an e-mail address: a local part of letters, digits and
/// `._%+-`, an `@`, a domain of letters, digits, dots and hyphens, a dot and
/// at least two letters.
pub const EMAIL_PATTERN: &'static str = "[a-zA-Z0-9._%+-]+@[a-zA-Z0-9.-]+\\.[a-zA-Z]{2,}";

/// The text in which an address is looked for: the percent-decoded form of
/// `text`, or `text` itself where it cannot be decoded.
pub open spec fn decoded_or_raw(text: Seq<char>) -> Seq<char> {
    match percent_decoded(text) {
        Some(decoded) => decoded,
        None => text,
    }
}

/// An e-mail address stands somewhere in `text`, plainly or percent-encoded.
pub open spec fn leaks_email(text: Seq<char>) -> bool {
    regex_match(EMAIL_PATTERN@, decoded_or_raw(text)) == Some(true)
}

/// The text in which an address is looked for, given the outcome of
/// decoding `raw`: the decoded text, or `raw` where there is none.
pub fn text_to_search(raw: &str, decoded: Option<String>) -> (text: String)
    ensures
        text@ == (match decoded {
            Some(d) => d@,
            None => raw@,
        }),
{
    match decoded {
        Some(d) => d,
        None => raw.to_string(),
    }
}

/// The outcome of a search as a plain answer: a match counts only where the
/// search ran and found one.
pub fn search_found(outcome: Option<bool>) -> (found: bool)
    ensures
        found == (outcome == Some(true)),
{
    match outcome {
        Some(found) => found,
        None => false,
    }
}

/// Whether `text` holds an e-mail address, plainly or percent-encoded.
pub fn has_pii(text: &str) -> (found: bool)
    ensures
        found == leaks_email(text@),
{
    let subject = text_to_search(text, percent_decode(text));
    search_found(regex_is_match(EMAIL_PATTERN, subject.as_str()))
}

/// The finding for a request sent over plain HTTP.
pub open spec fn unencrypted_http() -> ViolationView {
    ViolationView { issue: "Unencrypted (HTTP)"@, severity: "high"@ }
}

/// The finding for a tracker on a domain other than the audited one.
pub open spec fn third_party_tracker() -> ViolationView {
    ViolationView { issue: "3rd Party Tracker"@, severity: "medium"@ }
}

/// The finding for a tracker that hides on the audited domain itself.
pub open spec fn first_party_tracker() -> ViolationView {
    ViolationView { issue: "Hidden 1st Party Tracker"@, severity: "medium"@ }
}

/// The finding for an e-mail address in the URL.
pub open spec fn email_leak() -> ViolationView {
    ViolationView { issue: "PII (Email) Leak"@, severity: "critical"@ }
}

/// The findings that follow from the outcome of the three checks, in the
/// order of the checks: transport, tracking, leaked address.
pub open spec fn violation_list(
    insecure: bool,
    tracker: bool,
    first_party: bool,
    pii: bool,
) -> Seq<ViolationView> {
    let transport = if insecure {
        seq![unencrypted_http()]
    } else {
        Seq::empty()
    };
    let tracking = if tracker {
        seq![
            if first_party {
                first_party_tracker()
            } else {
                third_party_tracker()
            },
        ]
    } else {
        Seq::empty()
    };
    let leak = if pii {
        seq![email_leak()]
    } else {
        Seq::empty()
    };
    transport + tracking + leak
}

/// The findings about a request to `url` in an audit of `main_domain`.
pub open spec fn classification(url: Seq<char>, main_domain: Seq<char>) -> Seq<ViolationView> {
    violation_list(
        is_prefix("http://"@, url),
        mentions_tracker(url),
        is_substring(main_domain, domain_of(url)),
        leaks_email(url),
    )
}

/// The update that a request gives rise to, once its place is known.
pub open spec fn report(
    req: RawTrafficView,
    main_domain: Seq<char>,
    geo: GeoDataView,
) -> TrafficUpdateView {
    TrafficUpdateView {
        url: req.url,
        method: req.method,
        type_: req.resource_type,
        domain: domain_of(req.url),
        violations: classification(req.url, main_domain),
        geo: geo,
        is_tracker: mentions_tracker(req.url),
    }
}

/// The four findings differ from one another.
pub proof fn lemma_findings_differ()
    ensures
        unencrypted_http() != third_party_tracker(),
        unencrypted_http() != first_party_tracker(),
        unencrypted_http() != email_leak(),
        third_party_tracker() != first_party_tracker(),
        third_party_tracker() != email_leak(),
        first_party_tracker() != email_leak(),
{
    reveal_strlit("Unencrypted (HTTP)");
    reveal_strlit("3rd Party Tracker");
    reveal_strlit("Hidden 1st Party Tracker");
    reveal_strlit("PII (Email) Leak");
    assert("3rd Party Tracker"@.len() == 17);
    assert("Hidden 1st Party Tracker"@.len() == 24);
    assert("PII (Email) Leak"@.len() == 16);
}

/// Each finding is in the list exactly when its check calls for it.
pub proof fn lemma_violation_list_members(
    insecure: bool,
    tracker: bool,
    first_party: bool,
    pii: bool,
)
    ensures
        violation_list(insecure, tracker, first_party, pii).contains(unencrypted_http())
            <==> insecure,
        violation_list(insecure, tracker, first_party, pii).contains(third_party_tracker())
            <==> tracker && !first_party,
        violation_list(insecure, tracker, first_party, pii).contains(first_party_tracker())
            <==> tracker && first_party,
        violation_list(insecure, tracker, first_party, pii).contains(email_leak()) <==> pii,
        insecure ==> violation_list(insecure, tracker, first_party, pii)[0] == unencrypted_http(),
{
    lemma_findings_differ();
    let list = violation_list(insecure, tracker, first_party, pii);
    let n = list.len();
    if insecure {
        assert(list[0] == unencrypted_http());
    }
    if tracker {
        let at: int = if insecure { 1 } else { 0 };
        assert(list[at] == if first_party { first_party_tracker() } else { third_party_tracker() });
    }
    if pii {
        assert(list[n - 1] == email_leak());
    }
}

/// A URL that begins with `https://` does not begin with `http://`.
pub proof fn lemma_https_is_not_plain_http(url: Seq<char>)
    requires
        is_prefix("https://"@, url),
    ensures
        !is_prefix("http://"@, url),
{
    reveal_strlit("https://");
    reveal_strlit("http://");
    assert(url.subrange(0, 7)[4] == url[4]);
}

/// A URL is found unencrypted, with high severity, if and only if it begins
/// with `http://`, and the finding then comes before any other. No URL that
/// begins with `https://` is found so.
pub proof fn lemma_plain_http_is_flagged(url: Seq<char>, main_domain: Seq<char>)
    ensures
        classification(url, main_domain).contains(unencrypted_http()) <==> is_prefix(
            "http://"@,
            url,
        ),
        is_prefix("http://"@, url) ==> classification(url, main_domain)[0] == unencrypted_http(),
        is_prefix("https://"@, url) ==> !classification(url, main_domain).contains(
            unencrypted_http(),
        ),
        unencrypted_http().severity == "high"@,
{
    lemma_violation_list_members(
        is_prefix("http://"@, url),
        mentions_tracker(url),
        is_substring(main_domain, domain_of(url)),
        leaks_email(url),
    );
    if is_prefix("https://"@, url) {
        lemma_https_is_not_plain_http(url);
    }
}

/// Every URL that mentions a tracker gets exactly one of the two tracker
/// findings: the third-party one if and only if its domain does not contain
/// the main domain, else the first-party one. A URL that mentions none gets
/// neither.
pub proof fn lemma_tracker_is_labelled(url: Seq<char>, main_domain: Seq<char>)
    ensures
        mentions_tracker(url) ==> (classification(url, main_domain).contains(
            third_party_tracker(),
        ) <==> !is_substring(main_domain, domain_of(url))),
        mentions_tracker(url) ==> (classification(url, main_domain).contains(
            first_party_tracker(),
        ) <==> is_substring(main_domain, domain_of(url))),
        !mentions_tracker(url) ==> !classification(url, main_domain).contains(
            third_party_tracker(),
        ) && !classification(url, main_domain).contains(first_party_tracker()),
        third_party_tracker().severity == "medium"@,
        first_party_tracker().severity == "medium"@,
{
    lemma_violation_list_members(
        is_prefix("http://"@, url),
        mentions_tracker(url),
        is_substring(main_domain, domain_of(url)),
        leaks_email(url),
    );
}

/// A URL is found to leak an e-mail address, with critical severity, if and
/// only if an address stands in it, plainly or percent-encoded.
pub proof fn lemma_email_leak_is_flagged(url: Seq<char>, main_domain: Seq<char>)
    ensures
        classification(url, main_domain).contains(email_leak()) <==> leaks_email(url),
        email_leak().severity == "critical"@,
{
    lemma_violation_list_members(
        is_prefix("http://"@, url),
        mentions_tracker(url),
        is_substring(main_domain, domain_of(url)),
        leaks_email(url),
    );
}

/// The findings that the outcome of the three checks calls for, in the order
/// of the checks.
pub fn violations_for(insecure: bool, tracker: bool, first_party: bool, pii: bool) -> (list: Vec<
    Violation,
>)
    ensures
        violation_views(list@) == violation_list(insecure, tracker, first_party, pii),
{
    let mut list: Vec<Violation> = Vec::new();
    if insecure {
        list.push(
            Violation { issue: "Unencrypted (HTTP)".to_string(), severity: "high".to_string() },
        );
    }
    if tracker {
        if first_party {
            list.push(
                Violation {
                    issue: "Hidden 1st Party Tracker".to_string(),
                    severity: "medium".to_string(),
                },
            );
        } else {
            list.push(
                Violation {
                    issue: "3rd Party Tracker".to_string(),
                    severity: "medium".to_string(),
                },
            );
        }
    }
    if pii {
        list.push(
            Violation { issue: "PII (Email) Leak".to_string(), severity: "critical".to_string() },
        );
    }
    list
}

/// Classifies one request of an audit of `main_domain` and reports it
/// together with the place `geo` of its destination.
///
/// All three checks run on every request. The findings come in the order
/// transport, tracking, leaked address; the list may be empty.
pub fn classify(req: &RawTraffic, main_domain: &str, geo: GeoData) -> (update: TrafficUpdate)
    ensures
        update@ == report(req@, main_domain@, geo@),
        update@.violations.contains(unencrypted_http()) <==> is_prefix("http://"@, req.url@),
        is_prefix("https://"@, req.url@) ==> !update@.violations.contains(unencrypted_http()),
        update.is_tracker <==> mentions_tracker(req.url@),
        update@.violations.contains(third_party_tracker()) <==> mentions_tracker(req.url@)
            && !is_substring(main_domain@, domain_of(req.url@)),
        update@.violations.contains(first_party_tracker()) <==> mentions_tracker(req.url@)
            && is_substring(main_domain@, domain_of(req.url@)),
        update@.violations.contains(email_leak()) <==> leaks_email(req.url@),
{
    let req_domain = extract_domain(req.url.as_str());
    let is_tracker_detected = is_tracker(req.url.as_str());
    let insecure = starts_with(req.url.as_str(), "http://");
    let first_party = contains(req_domain.as_str(), main_domain);
    let pii = has_pii(req.url.as_str());
    let violations = violations_for(insecure, is_tracker_detected, first_party, pii);
    proof {
        lemma_plain_http_is_flagged(req.url@, main_domain@);
        lemma_tracker_is_labelled(req.url@, main_domain@);
        lemma_email_leak_is_flagged(req.url@, main_domain@);
    }
    TrafficUpdate {
        url: req.url.clone(),
        method: req.method.clone(),
        type_: req.resource_type.clone(),
        domain: req_domain,
        violations,
        geo,
        is_tracker: is_tracker_detected,
    }
}

/// Classifies one request of an audit of `main_domain`, finds the place of
/// its destination and reports both. `resolve` is asked for the addresses of
/// the request's host and `lookup` for the record of the first of them; each
/// answers `None` where it fails, and the place is then the fallback.
pub fn analyze_traffic<R, L>(req: &RawTraffic, main_domain: &str, resolve: R, lookup: L) -> (update:
    TrafficUpdate) where
    R: FnOnce(String) -> Option<Vec<IpAddress>>,
    L: FnOnce(IpAddress) -> Option<CityRecord>,

    requires
        forall|host: String| call_requires(resolve, (host,)),
        forall|address: IpAddress| call_requires(lookup, (address,)),
    ensures
        located(req.url@, resolve, lookup, update@.geo),
        update@ == report(req@, main_domain@, update@.geo),
        update@.violations.contains(unencrypted_http()) <==> is_prefix("http://"@, req.url@),
        is_prefix("https://"@, req.url@) ==> !update@.violations.contains(unencrypted_http()),
        update.is_tracker <==> mentions_tracker(req.url@),
        update@.violations.contains(third_party_tracker()) <==> mentions_tracker(req.url@)
            && !is_substring(main_domain@, domain_of(req.url@)),
        update@.violations.contains(first_party_tracker()) <==> mentions_tracker(req.url@)
            && is_substring(main_domain@, domain_of(req.url@)),
        update@.violations.contains(email_leak()) <==> leaks_email(req.url@),
{
    let geo = get_real_geo(req.url.as_str(), resolve, lookup);
    classify(req, main_domain, geo)
}

} // verus!
