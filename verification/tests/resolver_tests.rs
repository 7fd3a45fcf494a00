use liveview::resolver::{
    extract_metadata_url, image_enrichment, resolve_token_uri, str_eq, MetadataType, UriParts,
};

#[test]
fn parts_without_host_do_not_rewrite() {
    let parts = UriParts {
        scheme: String::from("ipfs"),
        host: None,
        path: String::from("/x"),
        serialized: String::from("ipfs:///x"),
    };
    assert!(extract_metadata_url(&parts).is_none());
}

#[test]
fn ipfs_host_case_is_preserved() {
    let (value, kind) = resolve_token_uri("ipfs://QmAbCdEf/1.json").expect("ipfs resolves");
    assert_eq!(value, "https://ipfs.io/ipfs/QmAbCdEf/1.json");
    assert_eq!(kind, MetadataType::Url);
}

#[test]
fn text_equality_is_by_characters() {
    assert!(str_eq("abc", "abc"));
    assert!(str_eq("", ""));
    assert!(!str_eq("abc", "abd"));
    assert!(!str_eq("abc", "ab"));
    assert!(!str_eq("", "a"));
}

#[test]
fn http_uri_keeps_its_serialization() {
    let r = resolve_token_uri("https://example.com/meta/1.json");
    let (value, kind) = r.expect("https resolves");
    assert_eq!(value, "https://example.com/meta/1.json");
    assert_eq!(kind, MetadataType::Url);
}

#[test]
fn ipfs_uri_is_rewritten_to_the_gateway() {
    let r = resolve_token_uri("ipfs://bafybeigdyrcid/path/1.json");
    let (value, kind) = r.expect("ipfs resolves");
    assert_eq!(value, "https://ipfs.io/ipfs/bafybeigdyrcid/path/1.json");
    assert_eq!(kind, MetadataType::Url);
}

#[test]
fn data_uri_passes_through_unchanged() {
    let uri = "data:application/json;base64,eyJpbWFnZSI6ICJhYmMifQ==";
    let (value, kind) = resolve_token_uri(uri).expect("data resolves");
    assert_eq!(value, uri);
    assert_eq!(kind, MetadataType::Data);
}

#[test]
fn other_schemes_yield_nothing() {
    assert!(resolve_token_uri("ftp://x").is_none());
    assert!(resolve_token_uri("not a uri at all").is_none());
    assert!(resolve_token_uri("").is_none());
}

#[test]
fn resolving_twice_yields_the_same_result() {
    for uri in [
        "https://example.com/a.json",
        "ipfs://cidhere/file.json",
        "data:application/json;base64,e30=",
        "ftp://x",
    ] {
        let first = resolve_token_uri(uri);
        let second = resolve_token_uri(uri);
        assert_eq!(first, second);
    }
}

#[test]
fn enrichment_combines_resolution_and_fetch() {
    // A fetched URL kind takes the fetched image.
    let r = image_enrichment(
        Some((String::from("https://example.com/a.json"), MetadataType::Url)),
        Some(String::from("https://img.example.com/1.png")),
    );
    assert_eq!(r.0.as_deref(), Some("https://img.example.com/1.png"));
    assert_eq!(r.1, Some(MetadataType::Url));

    // A failed fetch degrades to no enrichment.
    let r = image_enrichment(
        Some((String::from("https://example.com/a.json"), MetadataType::Url)),
        None,
    );
    assert_eq!(r.0, None);
    assert_eq!(r.1, None);

    // Self-contained data is its own value; the fetch outcome is ignored.
    let r = image_enrichment(
        Some((String::from("data:application/json;base64,e30="), MetadataType::Data)),
        None,
    );
    assert_eq!(r.0.as_deref(), Some("data:application/json;base64,e30="));
    assert_eq!(r.1, Some(MetadataType::Data));

    // No resolution, no enrichment.
    let r = image_enrichment(None, Some(String::from("ignored")));
    assert_eq!(r.0, None);
    assert_eq!(r.1, None);
}
