use liveview::address::parse_address;
use liveview::chain::{ChainBackend, ChainId, ChainRegistry};

fn backend(n: u8) -> ChainBackend {
    let hex = format!("0x{:038x}{:02x}", 0, n);
    ChainBackend { multicall_address: parse_address(&hex).expect("address should parse") }
}

#[test]
fn registry_selects_the_requested_backend() {
    let registry = ChainRegistry {
        mainnet: backend(1),
        base: backend(2),
        arbitrum: backend(3),
        optimism: backend(4),
        polygon: backend(5),
        bsc: backend(6),
    };
    let cases = [
        (ChainId::Mainnet, 1u8),
        (ChainId::Base, 2),
        (ChainId::Arbitrum, 3),
        (ChainId::Optimism, 4),
        (ChainId::Polygon, 5),
        (ChainId::Bsc, 6),
    ];
    for (id, n) in cases {
        let b = registry.backend(id);
        assert_eq!(b.multicall_address.to_bytes()[19], n);
    }
}
