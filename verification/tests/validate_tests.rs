use liveview::address::{parse_address, Address};
use liveview::token::{SearchError, SessionError};
use liveview::validate::{
    build_search_batch, build_validation_batch, dedup_addresses, interpret_batch_results,
    interpret_search_results, BatchCall, CallKind, CallOutcome,
};

fn addr(hex: &str) -> Address {
    parse_address(hex).expect("address should parse")
}

fn nth_addr(i: usize) -> Address {
    addr(&format!("0x{:040x}", i + 1))
}

fn batch_pairs(batch: &[BatchCall]) -> Vec<(Vec<u8>, CallKind)> {
    batch.iter().map(|c| (c.target.to_bytes(), c.kind)).collect()
}

#[test]
fn dedup_keeps_first_occurrence_order() {
    let a = nth_addr(0);
    let b = nth_addr(1);
    let input = vec![a.clone(), a.clone(), b.clone(), a.clone()];
    let out = dedup_addresses(&input);
    assert_eq!(out.len(), 2);
    assert_eq!(out[0].to_bytes(), a.to_bytes());
    assert_eq!(out[1].to_bytes(), b.to_bytes());
}

#[test]
fn duplicate_input_builds_identical_batch() {
    let a = nth_addr(0);
    let b = nth_addr(1);
    let with_dup = dedup_addresses(&vec![a.clone(), a.clone(), b.clone()]);
    let without = dedup_addresses(&vec![a.clone(), b.clone()]);
    let batch_dup = build_validation_batch(&with_dup);
    let batch_plain = build_validation_batch(&without);
    assert_eq!(batch_dup.len(), 6);
    assert_eq!(batch_pairs(&batch_dup), batch_pairs(&batch_plain));
}

#[test]
fn batch_is_three_calls_per_address() {
    for n in [1usize, 10, 100] {
        let addrs: Vec<Address> = (0..n).map(nth_addr).collect();
        let unique = dedup_addresses(&addrs);
        let batch = build_validation_batch(&unique);
        assert_eq!(batch.len(), 3 * n);
        for i in 0..n {
            assert_eq!(batch[3 * i].target.to_bytes(), addrs[i].to_bytes());
            assert_eq!(batch[3 * i].kind, CallKind::InterfaceProbe);
            assert_eq!(batch[3 * i + 1].kind, CallKind::Name);
            assert_eq!(batch[3 * i + 2].kind, CallKind::Symbol);
        }
    }
}

fn good_group(name: &str, symbol: &str) -> Vec<CallOutcome> {
    vec![
        CallOutcome::Flag(true),
        CallOutcome::Text(String::from(name)),
        CallOutcome::Text(String::from(symbol)),
    ]
}

#[test]
fn interpret_success_yields_descriptors_in_order() {
    let addrs = vec![nth_addr(0), nth_addr(1)];
    let mut results = good_group("Foo", "FOO");
    results.extend(good_group("Bar", "BAR"));
    let descs = interpret_batch_results(&addrs, &results).expect("all groups decode");
    assert_eq!(descs.len(), 2);
    assert_eq!(descs[0].address.to_bytes(), addrs[0].to_bytes());
    assert_eq!(descs[0].name, "Foo");
    assert_eq!(descs[0].symbol, "FOO");
    assert_eq!(descs[1].name, "Bar");
    assert_eq!(descs[1].symbol, "BAR");
}

#[test]
fn one_bad_address_rejects_all() {
    // First address valid, second fails its probe: the whole request is
    // rejected and the offending address is named.
    let addrs = vec![nth_addr(0), nth_addr(1)];
    let mut results = good_group("Foo", "FOO");
    results.push(CallOutcome::Flag(false));
    results.push(CallOutcome::Text(String::from("Bar")));
    results.push(CallOutcome::Text(String::from("BAR")));
    match interpret_batch_results(&addrs, &results) {
        Err(SessionError::AddressInvalid(a)) => {
            assert_eq!(a.to_bytes(), addrs[1].to_bytes());
        }
        _ => panic!("expected the whole request to be rejected"),
    }
}

#[test]
fn probe_decode_failure_rejects() {
    let addrs = vec![nth_addr(0)];
    let results = vec![
        CallOutcome::Failed,
        CallOutcome::Text(String::from("Foo")),
        CallOutcome::Text(String::from("FOO")),
    ];
    match interpret_batch_results(&addrs, &results) {
        Err(SessionError::AddressInvalid(a)) => {
            assert_eq!(a.to_bytes(), addrs[0].to_bytes());
        }
        _ => panic!("a failed probe decode must reject the address"),
    }
}

#[test]
fn name_decode_failure_rejects() {
    let addrs = vec![nth_addr(0)];
    let results = vec![
        CallOutcome::Flag(true),
        CallOutcome::Failed,
        CallOutcome::Text(String::from("FOO")),
    ];
    assert!(matches!(
        interpret_batch_results(&addrs, &results),
        Err(SessionError::AddressInvalid(_))
    ));
}

#[test]
fn first_offending_address_is_reported() {
    let addrs = vec![nth_addr(0), nth_addr(1), nth_addr(2)];
    let mut results = good_group("A", "AA");
    results.push(CallOutcome::Flag(false));
    results.extend(vec![
        CallOutcome::Text(String::from("B")),
        CallOutcome::Text(String::from("BB")),
    ]);
    results.push(CallOutcome::Flag(false));
    results.extend(vec![
        CallOutcome::Text(String::from("C")),
        CallOutcome::Text(String::from("CC")),
    ]);
    match interpret_batch_results(&addrs, &results) {
        Err(SessionError::AddressInvalid(a)) => {
            assert_eq!(a.to_bytes(), addrs[1].to_bytes());
        }
        _ => panic!("expected rejection"),
    }
}

#[test]
fn search_batch_is_name_then_symbol() {
    let a = nth_addr(0);
    let batch = build_search_batch(&a);
    assert_eq!(batch.len(), 2);
    assert_eq!(batch[0].target.to_bytes(), a.to_bytes());
    assert_eq!(batch[0].kind, CallKind::Name);
    assert_eq!(batch[1].kind, CallKind::Symbol);
}

#[test]
fn search_interpretation_maps_each_failure() {
    let a = nth_addr(0);
    let good = vec![
        CallOutcome::Text(String::from("Foo")),
        CallOutcome::Text(String::from("FOO")),
    ];
    let d = interpret_search_results(&a, true, &good).expect("both reads decode");
    assert_eq!(d.name, "Foo");
    assert_eq!(d.symbol, "FOO");
    assert_eq!(d.address.to_bytes(), a.to_bytes());

    assert!(matches!(
        interpret_search_results(&a, false, &good),
        Err(SearchError::InvalidAddress)
    ));
    let bad_name = vec![CallOutcome::Failed, CallOutcome::Text(String::from("FOO"))];
    assert!(matches!(
        interpret_search_results(&a, true, &bad_name),
        Err(SearchError::NameDecode)
    ));
    let bad_symbol = vec![CallOutcome::Text(String::from("Foo")), CallOutcome::Failed];
    assert!(matches!(
        interpret_search_results(&a, true, &bad_symbol),
        Err(SearchError::SymbolDecode)
    ));
}

#[test]
fn error_messages_match_the_protocol() {
    assert_eq!(SessionError::EmptyInput.message(), "No addresses provided");
    assert_eq!(
        SessionError::AddressInvalid(nth_addr(0)).message(),
        "Invalid address provided"
    );
    assert_eq!(SessionError::Transport.message(), "Failed to call fetch data");
    assert_eq!(
        SessionError::SubscribeFailed.message(),
        "Failed to subscribe to blocks"
    );
    assert_eq!(SearchError::InvalidAddress.message(), "Invalid address");
    assert_eq!(SearchError::InvalidAddress.status_code(), 400);
    assert_eq!(SearchError::Transport.status_code(), 500);
    assert_eq!(SearchError::NameDecode.message(), "Failed to decode name");
    assert_eq!(SearchError::SymbolDecode.message(), "Failed to decode symbol");
}
