//! Transfer events as they arrive from the log stream and as they are
//! emitted to the client, and the enrichment that joins them with a token
//! descriptor and the resolved image.

use vstd::prelude::*;
use crate::address::Address;
use crate::resolver::MetadataType;

verus! {

/// One decoded log entry of the live stream: a token ownership change.
pub struct RawTransferEvent {
    pub contract: Address,
    pub from: Address,
    pub to: Address,
    /// Token identifier, as its decimal text.
    pub token_id: String,
    pub block_number: u64,
    /// Transaction hash, as hex text.
    pub transaction_hash: String,
}

/// The outbound message for one transfer: the raw event joined with the
/// cached token identity, the best-effort image enrichment, and the server
/// timestamp taken at emission.
pub struct EnrichedTransferEvent {
    pub connection_id: String,
    pub contract: Address,
    pub name: String,
    pub symbol: String,
    pub from: Address,
    pub to: Address,
    pub token_id: String,
    pub image: Option<String>,
    pub image_kind: Option<MetadataType>,
    pub block_number: u64,
    pub transaction_hash: String,
    /// RFC 3339 text of the moment the event was emitted.
    pub timestamp: String,
}

/// Relies on `chrono::Utc::now` and its RFC 3339 serialization. The wall
/// clock decides the result, so nothing is stated of it.
#[verifier::external_body]
fn now_timestamp() -> String {
    chrono::Utc::now().to_rfc3339()
}

/// Builds the outbound message for one transfer. Every field except the
/// timestamp is pinned to its input: the raw event's fields pass through
/// unchanged, the identity comes from the descriptor resolved at
/// validation, and the image pair is whatever the resolver yielded.
pub fn enrich_event(
    connection_id: &String,
    transfer: RawTransferEvent,
    name: &String,
    symbol: &String,
    image: Option<String>,
    image_kind: Option<MetadataType>,
) -> (r: EnrichedTransferEvent)
    ensures
        r.connection_id@ == connection_id@,
        r.contract == transfer.contract,
        r.name@ == name@,
        r.symbol@ == symbol@,
        r.from == transfer.from,
        r.to == transfer.to,
        r.token_id == transfer.token_id,
        r.image == image,
        r.image_kind == image_kind,
        r.block_number == transfer.block_number,
        r.transaction_hash == transfer.transaction_hash,
{
    EnrichedTransferEvent {
        connection_id: connection_id.clone(),
        contract: transfer.contract,
        name: name.clone(),
        symbol: symbol.clone(),
        from: transfer.from,
        to: transfer.to,
        token_id: transfer.token_id,
        image,
        image_kind,
        block_number: transfer.block_number,
        transaction_hash: transfer.transaction_hash,
        timestamp: now_timestamp(),
    }
}

} // verus!
