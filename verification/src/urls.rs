use vstd::prelude::*;

use crate::error::{ApiError, Service};

verus! {

/// What the `url` crate makes of `raw`: the serialization of the parsed URL,
/// or nothing where `raw` is not a URL.
pub uninterp spec fn parsed_url(raw: Seq<char>) -> Option<Seq<char>>;

/// What the `url` crate makes of the URL serialized as `url` once each of `segments`
/// is pushed onto its path: the new serialization, or nothing where `url` cannot be a base.
pub uninterp spec fn url_with_segments(url: Seq<char>, segments: Seq<Seq<char>>) -> Option<Seq<char>>;

/// The views of a list of string slices.
pub open spec fn segment_views(segments: Seq<&str>) -> Seq<Seq<char>> {
    segments.map_values(|s: &str| s@)
}

/// `url::Url::parse`, with the URL handed back in its serialized form.
#[verifier::external_body]
fn url_parse(raw: &str) -> (res: Option<String>)
    ensures
        res.deep_view() == parsed_url(raw@),
{
    url::Url::parse(raw).ok().map(String::from)
}

/// `url::Url::path_segments_mut` followed by `PathSegmentsMut::extend` with `segments`,
/// on the URL serialized as `url`; the result is serialized again.
#[verifier::external_body]
fn url_push_segments(url: &str, segments: &[&str]) -> (res: Option<String>)
    ensures
        res.deep_view() == url_with_segments(url@, segment_views(segments@)),
{
    let mut parsed = url::Url::parse(url).ok()?;
    parsed.path_segments_mut().ok()?.extend(segments.iter());
    Some(String::from(parsed))
}

/// The reason given when `raw` is not a URL.
pub open spec fn unusable_url_reason(raw: Seq<char>) -> Seq<char> {
    "`"@ + raw + "` is not a usable url"@
}

/// The reason given when `base` cannot take path segments.
pub open spec fn not_a_base_reason(base: Seq<char>) -> Seq<char> {
    "`"@ + base + "` cannot be a base url"@
}

/// An input error of `service` whose reason is `reason`.
pub open spec fn is_input_error(e: ApiError, service: Service, reason: Seq<char>) -> bool {
    &&& e matches ApiError::Input { service: s, reason: r }
    &&& s == service
    &&& r@ == reason
}

fn quoted_reason(raw: &str, tail: &str) -> (reason: String)
    ensures
        reason@ == "`"@ + raw@ + tail@,
{
    let mut reason = String::from_str("`");
    reason.append(raw);
    reason.append(tail);
    reason
}

/// The outcome of parsing `raw` as a URL, given what the parser gave back.
pub fn parsed_url_outcome(service: Service, raw: &str, parsed: Option<String>) -> (res: Result<String, ApiError>)
    ensures
        match parsed {
            Some(url) => res matches Ok(u) && u@ == url@,
            None => res matches Err(e) && is_input_error(e, service, unusable_url_reason(raw@)),
        },
{
    match parsed {
        Some(url) => Ok(url),
        None => Err(ApiError::Input { service, reason: quoted_reason(raw, "` is not a usable url") }),
    }
}

/// Parses `raw` as a URL, or refuses it as input to `service`.
pub fn parse_url(service: Service, raw: &str) -> (res: Result<String, ApiError>)
    ensures
        match parsed_url(raw@) {
            Some(url) => res matches Ok(u) && u@ == url,
            None => res matches Err(e) && is_input_error(e, service, unusable_url_reason(raw@)),
        },
{
    parsed_url_outcome(service, raw, url_parse(raw))
}

/// The outcome of building a URL from `base`, given what the parser gave back for `base`
/// and, where it gave a URL, what pushing the segments onto it gave back.
pub fn built_url_outcome(
    service: Service,
    base: &str,
    parsed: Option<String>,
    extended: Option<String>,
) -> (res: Result<String, ApiError>)
    ensures
        match (parsed, extended) {
            (None, _) => res matches Err(e) && is_input_error(e, service, unusable_url_reason(base@)),
            (Some(_), None) => res matches Err(e) && is_input_error(e, service, not_a_base_reason(base@)),
            (Some(_), Some(url)) => res matches Ok(u) && u@ == url@,
        },
{
    match parsed {
        None => Err(ApiError::Input { service, reason: quoted_reason(base, "` is not a usable url") }),
        Some(_) => match extended {
            None => Err(ApiError::Input { service, reason: quoted_reason(base, "` cannot be a base url") }),
            Some(url) => Ok(url),
        },
    }
}

/// What building a URL for `service` from `base` and `segments` gives.
pub open spec fn url_built(service: Service, base: Seq<char>, segments: Seq<Seq<char>>, res: Result<String, ApiError>) -> bool {
    match parsed_url(base) {
        None => res matches Err(e) && is_input_error(e, service, unusable_url_reason(base)),
        Some(url) => match url_with_segments(url, segments) {
            None => res matches Err(e) && is_input_error(e, service, not_a_base_reason(base)),
            Some(full) => res matches Ok(u) && u@ == full,
        },
    }
}

/// Building a URL refuses a base that is not a URL, then one that cannot take path segments,
/// each with a reason that quotes the base; otherwise it gives the URL with the segments pushed.
pub proof fn built_urls_by_case(service: Service, base: Seq<char>, segments: Seq<Seq<char>>, res: Result<String, ApiError>)
    requires
        url_built(service, base, segments, res),
    ensures
        parsed_url(base) is None ==> (res matches Err(ApiError::Input { service: s, reason })
            && s == service && reason@ == "`"@ + base + "` is not a usable url"@),
        parsed_url(base) matches Some(url) ==> (url_with_segments(url, segments) is None ==> (res matches Err(
            ApiError::Input { service: s, reason },
        ) && s == service && reason@ == "`"@ + base + "` cannot be a base url"@)),
        parsed_url(base) matches Some(url) ==> (url_with_segments(url, segments) matches Some(full) ==> (
        res matches Ok(u) && u@ == full)),
{
}

/// The URL `base` with each of `segments` appended to its path, percent-encoded by the `url` crate.
pub fn build_url(service: Service, base: &str, segments: &[&str]) -> (res: Result<String, ApiError>)
    ensures
        url_built(service, base@, segment_views(segments@), res),
{
    let parsed = url_parse(base);
    let extended = match &parsed {
        Some(url) => url_push_segments(url.as_str(), segments),
        None => None,
    };
    built_url_outcome(service, base, parsed, extended)
}

} // verus!
