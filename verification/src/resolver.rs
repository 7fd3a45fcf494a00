//! Token-URI resolution: normalizing a metadata URI by scheme and deciding
//! whether, and from where, an image reference is fetched.

use vstd::prelude::*;

verus! {

/// How the resolved metadata value is to be used: as a URL to fetch, or as
/// self-contained data.
#[derive(Clone, Copy, Debug, PartialEq, Eq, Structural)]
pub enum MetadataType {
    Url,
    Data,
}

/// The components of a parsed URI that the resolver reads: the scheme
/// (lower-cased), the host when it is a named host, the path, and the full
/// serialization.
pub struct UriParts {
    pub scheme: String,
    pub host: Option<String>,
    pub path: String,
    pub serialized: String,
}

/// The component text of parsed URI parts.
pub open spec fn uri_parts_model(p: UriParts) -> (Seq<char>, Option<Seq<char>>, Seq<char>, Seq<
    char,
>) {
    (
        p.scheme@,
        match p.host {
            Some(h) => Some(h@),
            None => None,
        },
        p.path@,
        p.serialized@,
    )
}

/// The components that parsing a URI yields, or nothing when the text is
/// not an absolute URI. Parsing is a function of the text alone, so the
/// result carries a name rather than a page of grammar.
pub uninterp spec fn uri_parse_of(s: Seq<char>) -> Option<
    (Seq<char>, Option<Seq<char>>, Seq<char>, Seq<char>),
>;

/// Relies on `url::Url::parse` and its accessors `scheme`, `domain` and
/// `path`, and on its `Display` serialization. Parsing is deterministic in
/// the input string; `scheme` returns the scheme lower-cased; `domain`
/// returns the host only when it is a named host.
#[verifier::external_body]
fn parse_uri(s: &str) -> (r: Option<UriParts>)
    ensures
        r is Some <==> uri_parse_of(s@) is Some,
        r matches Some(p) ==> uri_parse_of(s@) == Some(uri_parts_model(p)),
{
    match url::Url::parse(s) {
        Ok(u) => Some(
            UriParts {
                scheme: u.scheme().to_owned(),
                host: u.domain().map(|d| d.to_owned()),
                path: u.path().to_owned(),
                serialized: u.to_string(),
            },
        ),
        Err(_) => None,
    }
}

/// Whether two pieces of text hold the same characters.
pub fn str_eq(a: &str, b: &str) -> (r: bool)
    ensures
        r == (a@ == b@),
{
    let la = a.unicode_len();
    let lb = b.unicode_len();
    if la != lb {
        return false;
    }
    let mut i: usize = 0;
    while i < la
        invariant
            la as nat == a@.len(),
            lb as nat == b@.len(),
            la == lb,
            i <= la,
            forall|k: int| 0 <= k < i ==> a@[k] == b@[k],
        decreases la - i,
    {
        if a.get_char(i) != b.get_char(i) {
            return false;
        }
        i = i + 1;
    }
    proof {
        assert(a@ =~= b@);
    }
    true
}

/// The gateway prefix that rewrites a content-addressed URI to a
/// retrievable HTTP URL.
pub open spec fn gateway_prefix() -> Seq<char> {
    "https://ipfs.io/ipfs/"@
}

/// What the resolver yields for parsed URI parts:
/// `http`/`https` keep their full serialization and are fetched as URLs; a
/// content-addressed `ipfs` URI is rewritten to the gateway URL from its
/// host and path, and needs a named host; `data` URIs are self-contained
/// and pass through unchanged; every other scheme yields nothing.
pub open spec fn resolved_from_parts(
    t: (Seq<char>, Option<Seq<char>>, Seq<char>, Seq<char>),
) -> Option<(Seq<char>, MetadataType)> {
    if t.0 == "http"@ || t.0 == "https"@ {
        Some((t.3, MetadataType::Url))
    } else if t.0 == "ipfs"@ {
        match t.1 {
            Some(h) => Some((gateway_prefix() + h + t.2, MetadataType::Url)),
            None => None,
        }
    } else if t.0 == "data"@ {
        Some((t.3, MetadataType::Data))
    } else {
        None
    }
}

/// What resolving a token URI yields: nothing for text that does not parse
/// as a URI, else what its parts resolve to.
pub open spec fn resolution_of(s: Seq<char>) -> Option<(Seq<char>, MetadataType)> {
    match uri_parse_of(s) {
        Some(t) => resolved_from_parts(t),
        None => None,
    }
}

/// Resolves parsed URI parts by scheme.
pub fn extract_metadata_url(parts: &UriParts) -> (r: Option<(String, MetadataType)>)
    ensures
        r is Some <==> resolved_from_parts(uri_parts_model(*parts)) is Some,
        r matches Some(p) ==> resolved_from_parts(uri_parts_model(*parts)) == Some((p.0@, p.1)),
{
    if str_eq(parts.scheme.as_str(), "http") || str_eq(parts.scheme.as_str(), "https") {
        Some((parts.serialized.clone(), MetadataType::Url))
    } else if str_eq(parts.scheme.as_str(), "ipfs") {
        match &parts.host {
            Some(h) => {
                let mut out = String::from_str("https://ipfs.io/ipfs/");
                out.append(h.as_str());
                out.append(parts.path.as_str());
                Some((out, MetadataType::Url))
            },
            None => None,
        }
    } else if str_eq(parts.scheme.as_str(), "data") {
        Some((parts.serialized.clone(), MetadataType::Data))
    } else {
        None
    }
}

/// Resolves a token URI: parse, then branch by scheme.
pub fn resolve_token_uri(s: &str) -> (r: Option<(String, MetadataType)>)
    ensures
        r is Some <==> resolution_of(s@) is Some,
        r matches Some(p) ==> resolution_of(s@) == Some((p.0@, p.1)),
{
    match parse_uri(s) {
        Some(parts) => extract_metadata_url(&parts),
        None => None,
    }
}

/// Resolving the same token URI twice yields the same value and kind: the
/// resolution is a function of the URI text alone, so any two results for
/// the same text agree.
pub proof fn lemma_resolution_deterministic(
    s: Seq<char>,
    r1: Option<(Seq<char>, MetadataType)>,
    r2: Option<(Seq<char>, MetadataType)>,
)
    requires
        r1 == resolution_of(s),
        r2 == resolution_of(s),
    ensures
        r1 == r2,
{
}

/// Combines what the resolver decided with what the fetch brought back.
/// A URL kind takes the fetched image reference when the fetch succeeded
/// and degrades to no enrichment when it failed; self-contained data is its
/// own value; no resolution means no enrichment. The event is emitted in
/// every case.
pub fn image_enrichment(resolved: Option<(String, MetadataType)>, fetched: Option<String>) -> (r: (
    Option<String>,
    Option<MetadataType>,
))
    ensures
        resolved is None ==> r.0 is None && r.1 is None,
        resolved matches Some(p) ==> (if p.1 is Url {
            match fetched {
                Some(img) => (r.0 matches Some(v) && v@ == img@) && r.1 == Some(MetadataType::Url),
                None => r.0 is None && r.1 is None,
            }
        } else {
            (r.0 matches Some(v) && v@ == p.0@) && r.1 == Some(MetadataType::Data)
        }),
{
    match resolved {
        None => (None, None),
        Some((_, MetadataType::Url)) => match fetched {
            Some(img) => (Some(img), Some(MetadataType::Url)),
            None => (None, None),
        },
        Some((value, MetadataType::Data)) => (Some(value), Some(MetadataType::Data)),
    }
}

} // verus!
