use vstd::prelude::*;

verus! {

/// What can go wrong between the viewer and the geometry backend. Transport
/// and decoding failures carry the reporting text of the failure; they are
/// surfaced inline and nothing is retried.
#[derive(Clone, Debug)]
pub enum GeometryApiError {
    /// The HTTP request itself failed.
    RequestFailed(String),
    /// The response body did not decode into geometry records.
    JsonConversionFailed(String),
    /// The configured base URL does not parse as an absolute URL that can
    /// carry path segments, or is too long to append a segment to.
    UrlParsing,
}

/// The most characters of a base URL (or of a segment) that the URL builders
/// accept. The url crate keeps byte offsets into a URL's serialization in
/// 32-bit integers — URLs past 4 GB are unsupported — and while an oversized
/// parse merely fails, growing past the cap when a segment is appended would
/// panic. A character contributes a handful of serialized bytes (four UTF-8
/// bytes, each at most tripled by percent-encoding), so inputs under this
/// bound keep the total far below the cap.
pub const URL_INPUT_CHAR_LIMIT: usize = 0x400_0000;

/// Names the serialization of `base` parsed as an absolute URL with `segment`
/// appended to its path, or nothing when `base` does not parse or cannot
/// carry path segments. It is a function of the two character sequences
/// alone.
pub uninterp spec fn url_with_segment(base: Seq<char>, segment: Seq<char>) -> Option<Seq<char>>;

/// Relies on url::Url::parse, url::Url::path_segments_mut and
/// url::PathSegmentsMut::push: parses `base` as an absolute URL, appends
/// `segment` to its path (percent-encoding it as needed) and serializes the
/// result; `path_segments_mut` reports instead of panicking when the URL
/// cannot be a base. The bounds keep the serialization far below the crate's
/// 4 GB cap, which appending enforces with a panic.
#[verifier::external_body]
fn append_url_segment(base: &str, segment: &str) -> (r: Option<String>)
    requires
        base@.len() < URL_INPUT_CHAR_LIMIT,
        segment@.len() < URL_INPUT_CHAR_LIMIT,
    ensures
        r is Some <==> url_with_segment(base@, segment@) is Some,
        r matches Some(u) ==> Some(u@) == url_with_segment(base@, segment@),
{
    let mut url = url::Url::parse(base).ok()?;
    url.path_segments_mut().ok()?.push(segment);
    Some(url.to_string())
}

/// Health of the geometry backend, as reported by its healthcheck endpoint.
pub enum ApiHealth {
    Healthy,
    Error(String),
}

impl ApiHealth {
    /// Interprets an HTTP status line from the healthcheck endpoint: status
    /// 200 means the backend is reachable, anything else is reported with the
    /// status text.
    pub fn from_status(status: u16, status_text: String) -> (r: ApiHealth)
        ensures
            status == 200 ==> r is Healthy,
            status != 200 ==> (r matches ApiHealth::Error(t) && t@ == status_text@),
    {
        match status {
            200 => ApiHealth::Healthy,
            _ => ApiHealth::Error(status_text),
        }
    }
}

/// Connection settings for the geometry backend.
pub struct GeometryApi {
    pub api_url: String,
}

impl GeometryApi {
    /// A fresh configuration pointing at the default local backend.
    pub fn new() -> (r: Self)
        ensures
            r.api_url@ == "http://localhost:8000"@,
    {
        GeometryApi { api_url: String::from_str("http://localhost:8000") }
    }

    /// The URL of the backend's healthcheck endpoint: the configured base URL
    /// with the segment `healthcheck` appended to its path. A base URL at or
    /// past the input length limit is rejected like one that does not parse.
    pub fn healtchcheck_url(&self) -> (r: Result<String, GeometryApiError>)
        ensures
            self.api_url@.len() >= URL_INPUT_CHAR_LIMIT ==> (r matches Err(e) && e is UrlParsing),
            self.api_url@.len() < URL_INPUT_CHAR_LIMIT ==> {
                &&& (r is Ok <==> url_with_segment(self.api_url@, "healthcheck"@) is Some)
                &&& (r matches Ok(u) ==> Some(u@) == url_with_segment(self.api_url@, "healthcheck"@))
            },
            r matches Err(e) ==> e is UrlParsing,
    {
        if self.api_url.as_str().unicode_len() >= URL_INPUT_CHAR_LIMIT {
            return Err(GeometryApiError::UrlParsing);
        }
        proof {
            reveal_strlit("healthcheck");
        }
        match append_url_segment(self.api_url.as_str(), "healthcheck") {
            Some(u) => Ok(u),
            None => Err(GeometryApiError::UrlParsing),
        }
    }

    /// The URL of the backend's geometry endpoint: the configured base URL
    /// with the segment `geometry` appended to its path. A base URL at or
    /// past the input length limit is rejected like one that does not parse.
    pub fn geometry_url(&self) -> (r: Result<String, GeometryApiError>)
        ensures
            self.api_url@.len() >= URL_INPUT_CHAR_LIMIT ==> (r matches Err(e) && e is UrlParsing),
            self.api_url@.len() < URL_INPUT_CHAR_LIMIT ==> {
                &&& (r is Ok <==> url_with_segment(self.api_url@, "geometry"@) is Some)
                &&& (r matches Ok(u) ==> Some(u@) == url_with_segment(self.api_url@, "geometry"@))
            },
            r matches Err(e) ==> e is UrlParsing,
    {
        if self.api_url.as_str().unicode_len() >= URL_INPUT_CHAR_LIMIT {
            return Err(GeometryApiError::UrlParsing);
        }
        proof {
            reveal_strlit("geometry");
        }
        match append_url_segment(self.api_url.as_str(), "geometry") {
            Some(u) => Ok(u),
            None => Err(GeometryApiError::UrlParsing),
        }
    }
}

} // verus!
