//! Vetting of image URLs and of the response headers an image server sends
//! back, before any body is read.
use vstd::prelude::*;
use crate::text::{decimal, decimal_string};

verus! {

/// What `text` parses to as a URL: its scheme and whether it has a host, or
/// `None` where it does not parse.
pub uninterp spec fn parsed_url_of(text: Seq<char>) -> Option<(Seq<char>, bool)>;

/// Relies on `url::Url::parse`, with `Url::scheme` and `Url::has_host` read off
/// the parsed value: whether a text parses, its scheme and whether it has a host
/// depend on the text alone. An error is handed back as its display text.
#[verifier::external_body]
fn parse_url(text: &str) -> (r: Result<(String, bool), String>)
    ensures
        r is Ok <==> parsed_url_of(text@) is Some,
        r is Ok ==> parsed_url_of(text@) == Some((r->Ok_0.0@, r->Ok_0.1)),
{
    match url::Url::parse(text) {
        Ok(u) => Ok((u.scheme().to_string(), u.has_host())),
        Err(e) => Err(e.to_string()),
    }
}

/// Limits applied to the response of an image server.
#[derive(Debug, Clone, Copy)]
pub struct DownloadOptions {
    /// Largest accepted declared body length; `None` for no limit.
    pub max_content_length: Option<u64>,
    /// Whether the content type must start with `image/`.
    pub check_mime_type: bool,
}

/// Why an image could not be fetched.
#[derive(Debug)]
pub enum DownloadError {
    UrsParseError { url: String, desc: String },
    FailedGetImage { url: String, desc: String },
    StatusCodeNotOK { url: String, code: String },
    FailedParsePayload { url: String, desc: String },
    ContentLenghtError { url: String, actual_content_length: u64, max_content_length: u64 },
    InvalidContentType { url: String, content_type: String, content_type_prefix: String },
}

/// The mathematical value of a `DownloadError`.
pub enum DownloadFault {
    UrsParseError { url: Seq<char>, desc: Seq<char> },
    FailedGetImage { url: Seq<char>, desc: Seq<char> },
    StatusCodeNotOK { url: Seq<char>, code: Seq<char> },
    FailedParsePayload { url: Seq<char>, desc: Seq<char> },
    ContentLenghtError { url: Seq<char>, actual_content_length: u64, max_content_length: u64 },
    InvalidContentType { url: Seq<char>, content_type: Seq<char>, content_type_prefix: Seq<char> },
}

impl View for DownloadError {
    type V = DownloadFault;

    open spec fn view(&self) -> DownloadFault {
        match self {
            DownloadError::UrsParseError { url, desc } => DownloadFault::UrsParseError {
                url: url@,
                desc: desc@,
            },
            DownloadError::FailedGetImage { url, desc } => DownloadFault::FailedGetImage {
                url: url@,
                desc: desc@,
            },
            DownloadError::StatusCodeNotOK { url, code } => DownloadFault::StatusCodeNotOK {
                url: url@,
                code: code@,
            },
            DownloadError::FailedParsePayload { url, desc } => DownloadFault::FailedParsePayload {
                url: url@,
                desc: desc@,
            },
            DownloadError::ContentLenghtError { url, actual_content_length, max_content_length } =>
                DownloadFault::ContentLenghtError {
                url: url@,
                actual_content_length: *actual_content_length,
                max_content_length: *max_content_length,
            },
            DownloadError::InvalidContentType { url, content_type, content_type_prefix } =>
                DownloadFault::InvalidContentType {
                url: url@,
                content_type: content_type@,
                content_type_prefix: content_type_prefix@,
            },
        }
    }
}

/// The human-readable text of a download failure.
pub open spec fn download_message(f: DownloadFault) -> Seq<char> {
    match f {
        DownloadFault::UrsParseError { url, desc } => "Failed to parse url '"@ + url + "' error: "@
            + desc,
        DownloadFault::FailedGetImage { url, desc } => "Failed to get image (image url: '"@ + url
            + "') error: "@ + desc,
        DownloadFault::StatusCodeNotOK { url, code } => "Get image (image url: '"@ + url
            + "') returned status code != 200: "@ + code,
        DownloadFault::FailedParsePayload { url, desc } => "Failed to parse image payload (image url: '"@
            + url + "') error: "@ + desc,
        DownloadFault::ContentLenghtError { url, actual_content_length, max_content_length } =>
            "Response from url '"@ + url + "' returned content_length "@ + decimal(
            actual_content_length as nat,
        ) + " that exceeds max allowed "@ + decimal(max_content_length as nat),
        DownloadFault::InvalidContentType { url, content_type, content_type_prefix } =>
            "Response from url '"@ + url + "' returned content_type '"@ + content_type
            + "'. Expecting content type starting with '"@ + content_type_prefix + "'"@,
    }
}

impl DownloadError {
    /// The human-readable text of this failure.
    pub fn message(&self) -> (r: String)
        ensures
            r@ == download_message(self@),
    {
        match self {
            DownloadError::UrsParseError { url, desc } => {
                let mut r = String::from_str("Failed to parse url '");
                r.append(url.as_str());
                r.append("' error: ");
                r.append(desc.as_str());
                r
            },
            DownloadError::FailedGetImage { url, desc } => {
                let mut r = String::from_str("Failed to get image (image url: '");
                r.append(url.as_str());
                r.append("') error: ");
                r.append(desc.as_str());
                r
            },
            DownloadError::StatusCodeNotOK { url, code } => {
                let mut r = String::from_str("Get image (image url: '");
                r.append(url.as_str());
                r.append("') returned status code != 200: ");
                r.append(code.as_str());
                r
            },
            DownloadError::FailedParsePayload { url, desc } => {
                let mut r = String::from_str("Failed to parse image payload (image url: '");
                r.append(url.as_str());
                r.append("') error: ");
                r.append(desc.as_str());
                r
            },
            DownloadError::ContentLenghtError { url, actual_content_length, max_content_length } => {
                let mut r = String::from_str("Response from url '");
                r.append(url.as_str());
                r.append("' returned content_length ");
                let a = decimal_string(*actual_content_length);
                r.append(a.as_str());
                r.append(" that exceeds max allowed ");
                let m = decimal_string(*max_content_length);
                r.append(m.as_str());
                r
            },
            DownloadError::InvalidContentType { url, content_type, content_type_prefix } => {
                let mut r = String::from_str("Response from url '");
                r.append(url.as_str());
                r.append("' returned content_type '");
                r.append(content_type.as_str());
                r.append("'. Expecting content type starting with '");
                r.append(content_type_prefix.as_str());
                r.append("'");
                r
            },
        }
    }
}

/// The view of a `Result` whose error is a `DownloadError`.
pub open spec fn download_result_view<T>(r: Result<T, DownloadError>) -> Result<T, DownloadFault> {
    match r {
        Ok(v) => Ok(v),
        Err(e) => Err(e@),
    }
}

/// Whether a parsed URL may be fetched: scheme `http` or `https` and a host.
pub open spec fn url_acceptable(parts: (Seq<char>, bool)) -> bool {
    parts.1 && (parts.0 == "https"@ || parts.0 == "http"@)
}

/// The verdict on `url` given what it parsed to (`Err` carrying the parser's
/// description where it did not parse).
pub open spec fn url_verdict(url: Seq<char>, parsed: Result<(Seq<char>, bool), Seq<char>>) -> Result<(), DownloadFault> {
    match parsed {
        Err(desc) => Err(DownloadFault::UrsParseError { url, desc }),
        Ok(parts) => if url_acceptable(parts) {
            Ok(())
        } else {
            Err(DownloadFault::UrsParseError { url, desc: "incorrect scheme or host"@ })
        },
    }
}

/// Decides on `url` from what the URL parser made of it.
pub fn check_parsed_url(url: &str, parsed: Result<(String, bool), String>) -> (r: Result<(), DownloadError>)
    ensures
        download_result_view(r) == url_verdict(
            url@,
            match parsed {
                Ok(p) => Ok((p.0@, p.1)),
                Err(d) => Err(d@),
            },
        ),
{
    match parsed {
        Err(desc) => Err(DownloadError::UrsParseError { url: url.to_string(), desc }),
        Ok(parts) => {
            let (scheme, has_host) = parts;
            proof {
                reveal_strlit("https");
                reveal_strlit("http");
            }
            if has_host && (str_eq(scheme.as_str(), "https") || str_eq(scheme.as_str(), "http")) {
                Ok(())
            } else {
                Err(
                    DownloadError::UrsParseError {
                        url: url.to_string(),
                        desc: String::from_str("incorrect scheme or host"),
                    },
                )
            }
        },
    }
}

/// Accepts only absolute `http` or `https` URLs with a host.
pub fn validate_url(url: &str) -> (r: Result<(), DownloadError>)
    ensures
        r is Ok <==> (parsed_url_of(url@) is Some && url_acceptable(parsed_url_of(url@)->0)),
        r is Err ==> r->Err_0@ is UrsParseError && r->Err_0@->UrsParseError_url == url@,
        parsed_url_of(url@) is Some && !url_acceptable(parsed_url_of(url@)->0) ==> r->Err_0@
            == (DownloadFault::UrsParseError { url: url@, desc: "incorrect scheme or host"@ }),
{
    let parsed = parse_url(url);
    check_parsed_url(url, parsed)
}

/// Whether two texts are equal, character by character.
pub fn str_eq(a: &str, b: &str) -> (r: bool)
    ensures
        r == (a@ == b@),
{
    let n = a.unicode_len();
    if n != b.unicode_len() {
        return false;
    }
    let mut i: usize = 0;
    while i < n
        invariant
            n == a@.len(),
            n == b@.len(),
            i <= n,
            forall|j: int| 0 <= j < i ==> a@[j] == b@[j],
        decreases n - i,
    {
        if a.get_char(i) != b.get_char(i) {
            return false;
        }
        i = i + 1;
    }
    assert(a@ =~= b@);
    true
}

/// Whether `s` begins with `prefix`.
pub fn starts_with(s: &str, prefix: &str) -> (r: bool)
    ensures
        r == (prefix@.len() <= s@.len() && s@.subrange(0, prefix@.len() as int) == prefix@),
{
    let n = prefix.unicode_len();
    if n > s.unicode_len() {
        return false;
    }
    let mut i: usize = 0;
    while i < n
        invariant
            n == prefix@.len(),
            n <= s@.len(),
            i <= n,
            forall|j: int| 0 <= j < i ==> s@[j] == prefix@[j],
        decreases n - i,
    {
        if s.get_char(i) != prefix.get_char(i) {
            assert(s@.subrange(0, n as int)[i as int] != prefix@[i as int]);
            return false;
        }
        i = i + 1;
    }
    assert(s@.subrange(0, n as int) =~= prefix@);
    true
}

/// The content-type prefix that an image response must carry.
pub open spec fn mime_prefix() -> Seq<char> {
    "image/"@
}

/// What the HEAD response of an image server says.
#[derive(Debug, Clone)]
pub struct ResponseHead {
    /// The URL that answered, after redirects.
    pub url: String,
    /// The HTTP status code.
    pub status: u16,
    /// The declared body length, if any.
    pub content_length: Option<u64>,
    /// The content-type header, if present and readable as text.
    pub content_type: Option<String>,
}

/// Whether the declared length exceeds the configured maximum.
pub open spec fn too_large(opt: DownloadOptions, len: Option<u64>) -> bool {
    opt.max_content_length is Some && len is Some && len->0 > opt.max_content_length->0
}

/// Whether the content type must be refused.
pub open spec fn bad_content_type(opt: DownloadOptions, ct: Option<String>) -> bool {
    opt.check_mime_type && !(ct is Some && ct->0@.len() >= mime_prefix().len() && ct->0@.subrange(
        0,
        mime_prefix().len() as int,
    ) == mime_prefix())
}

/// The verdict on a response head: status first, then length, then content type.
pub open spec fn head_verdict(head: ResponseHead, opt: DownloadOptions) -> Result<(), DownloadFault> {
    if head.status != 200 {
        Err(DownloadFault::StatusCodeNotOK { url: head.url@, code: decimal(head.status as nat) })
    } else if too_large(opt, head.content_length) {
        Err(
            DownloadFault::ContentLenghtError {
                url: head.url@,
                actual_content_length: head.content_length->0,
                max_content_length: opt.max_content_length->0,
            },
        )
    } else if bad_content_type(opt, head.content_type) {
        Err(
            DownloadFault::InvalidContentType {
                url: head.url@,
                content_type: match head.content_type {
                    Some(c) => c@,
                    None => Seq::empty(),
                },
                content_type_prefix: mime_prefix(),
            },
        )
    } else {
        Ok(())
    }
}

/// Checks a response head against the options before its body is read.
pub fn validate_response_header(head: &ResponseHead, options: &DownloadOptions) -> (r: Result<
    (),
    DownloadError,
>)
    ensures
        download_result_view(r) == head_verdict(*head, *options),
{
    if head.status != 200 {
        return Err(
            DownloadError::StatusCodeNotOK {
                url: head.url.clone(),
                code: decimal_string(head.status as u64),
            },
        );
    }
    if let Some(max_content_length) = options.max_content_length {
        if let Some(actual_content_length) = head.content_length {
            if actual_content_length > max_content_length {
                return Err(
                    DownloadError::ContentLenghtError {
                        url: head.url.clone(),
                        actual_content_length,
                        max_content_length,
                    },
                );
            }
        }
    }
    if options.check_mime_type {
        proof {
            reveal_strlit("image/");
        }
        let valid = match &head.content_type {
            Some(c) => starts_with(c.as_str(), "image/"),
            None => false,
        };
        if !valid {
            let content_type = match &head.content_type {
                Some(c) => c.clone(),
                None => String::new(),
            };
            return Err(
                DownloadError::InvalidContentType {
                    url: head.url.clone(),
                    content_type,
                    content_type_prefix: String::from_str("image/"),
                },
            );
        }
    }
    Ok(())
}

} // verus!
