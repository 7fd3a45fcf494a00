//! The per-connection session: a state machine that sequences validation,
//! subscription and the streaming loop, owns the cancellation flag, and
//! decides every emission. The surrounding process performs the network
//! work that each action asks for and feeds the outcome back as the next
//! event.

use vstd::prelude::*;
use crate::address::{addr_eq, Address};
use crate::chain::ChainId;
use crate::events::RawTransferEvent;
use crate::token::{SessionError, TokenDescriptor};
use crate::validate::{
    addr_views, batch_model, batch_views, build_validation_batch, dedup_addresses,
    lemma_dedup_drops_duplicate, spec_dedup, BatchCall, CallKind,
};

verus! {

/// The phase of a session. `Terminated` is absorbing.
#[derive(Clone, Copy, Debug, PartialEq, Eq, Structural)]
pub enum Phase {
    Idle,
    Validating,
    Subscribed,
    Streaming,
    Terminated,
}

/// A token descriptor, as the bytes and text it holds.
#[verifier::ext_equal]
pub struct ModelDescriptor {
    pub address: Seq<u8>,
    pub name: Seq<char>,
    pub symbol: Seq<char>,
}

/// A decoded transfer event, as the bytes and text it holds.
#[verifier::ext_equal]
pub struct ModelTransfer {
    pub contract: Seq<u8>,
    pub from: Seq<u8>,
    pub to: Seq<u8>,
    pub token_id: Seq<char>,
    pub block_number: u64,
    pub transaction_hash: Seq<char>,
}

/// A session error, as the bytes it holds.
pub enum ModelError {
    EmptyInput,
    AddressInvalid(Seq<u8>),
    Transport,
    SubscribeFailed,
}

/// One arrival on the live log stream: closure, an entry that did not
/// decode, or a decoded transfer.
pub enum ModelStreamItem {
    Closed,
    Undecodable,
    Transfer(ModelTransfer),
}

/// One event a session reacts to.
pub enum ModelEvent {
    /// An inbound subscription request.
    Request { chain: ChainId, addresses: Seq<Seq<u8>> },
    /// The interpreted outcome of the batched validation call.
    ValidationOutcome { result: Result<Seq<ModelDescriptor>, ModelError> },
    /// Whether opening the log subscription succeeded.
    SubscribeOutcome { ok: bool },
    /// The next arrival on the open stream.
    Stream { item: ModelStreamItem },
    /// The transport-level disconnect signal.
    Disconnect,
}

/// What a step asks the surrounding process to do.
pub enum ModelAction {
    Nothing,
    /// Emit a single terminal error message.
    EmitError(ModelError),
    /// Submit this batch as one batched read call for these deduplicated
    /// addresses.
    StartValidation { chain: ChainId, addresses: Seq<Seq<u8>>, batch: Seq<(Seq<u8>, CallKind)> },
    /// Open the live log subscription for these validated addresses.
    OpenSubscription { addresses: Seq<Seq<u8>> },
    /// Spawn the background streaming loop.
    StartStreaming,
    /// Skip this log entry and keep streaming.
    SkipLog,
    /// Enrich and emit this transfer with the cached identity.
    Emit { transfer: ModelTransfer, name: Seq<char>, symbol: Seq<char> },
}

/// The state of a session: its phase, the irreversible cancellation flag,
/// the chain chosen by the request, the validated address set, and the
/// per-session descriptor cache.
#[verifier::ext_equal]
pub struct ModelSession {
    pub phase: Phase,
    pub cancelled: bool,
    pub chain: Option<ChainId>,
    pub addresses: Seq<Seq<u8>>,
    pub descriptors: Seq<ModelDescriptor>,
}

/// The state a session starts in.
pub open spec fn initial_session() -> ModelSession {
    ModelSession {
        phase: Phase::Idle,
        cancelled: false,
        chain: None,
        addresses: Seq::empty(),
        descriptors: Seq::empty(),
    }
}

/// The first descriptor at or after position `i` whose address matches.
pub open spec fn find_descriptor(descs: Seq<ModelDescriptor>, a: Seq<u8>, i: int) -> Option<
    ModelDescriptor,
>
    decreases descs.len() - i,
{
    if i < 0 || i >= descs.len() {
        None
    } else if descs[i].address == a {
        Some(descs[i])
    } else {
        find_descriptor(descs, a, i + 1)
    }
}

/// One step of the session state machine.
///
/// A request is taken only when idle; an empty address list is rejected
/// before validation begins, and otherwise the deduplicated addresses seed
/// the one batched call. A validation error or a failed subscription open
/// emits a single terminal error. While streaming, the cancellation flag is
/// checked with priority over the arrived item; an entry that did not
/// decode, or whose contract has no cached descriptor, is skipped without
/// ending the session. Disconnect sets the cancellation flag and nothing
/// else; the flag is never cleared.
pub open spec fn spec_step(s: ModelSession, ev: ModelEvent) -> (ModelSession, ModelAction) {
    match ev {
        ModelEvent::Request { chain, addresses } => {
            if s.phase is Idle {
                if addresses.len() == 0 {
                    (
                        ModelSession { phase: Phase::Terminated, ..s },
                        ModelAction::EmitError(ModelError::EmptyInput),
                    )
                } else {
                    let unique = spec_dedup(addresses);
                    (
                        ModelSession {
                            phase: Phase::Validating,
                            chain: Some(chain),
                            addresses: unique,
                            ..s
                        },
                        ModelAction::StartValidation {
                            chain,
                            addresses: unique,
                            batch: batch_model(unique),
                        },
                    )
                }
            } else {
                (s, ModelAction::Nothing)
            }
        },
        ModelEvent::ValidationOutcome { result } => {
            if s.phase is Validating {
                match result {
                    Ok(descs) => (
                        ModelSession { phase: Phase::Subscribed, descriptors: descs, ..s },
                        ModelAction::OpenSubscription { addresses: s.addresses },
                    ),
                    Err(e) => (
                        ModelSession { phase: Phase::Terminated, ..s },
                        ModelAction::EmitError(e),
                    ),
                }
            } else {
                (s, ModelAction::Nothing)
            }
        },
        ModelEvent::SubscribeOutcome { ok } => {
            if s.phase is Subscribed {
                if ok {
                    (ModelSession { phase: Phase::Streaming, ..s }, ModelAction::StartStreaming)
                } else {
                    (
                        ModelSession { phase: Phase::Terminated, ..s },
                        ModelAction::EmitError(ModelError::SubscribeFailed),
                    )
                }
            } else {
                (s, ModelAction::Nothing)
            }
        },
        ModelEvent::Stream { item } => {
            if s.phase is Streaming {
                if s.cancelled {
                    (ModelSession { phase: Phase::Terminated, ..s }, ModelAction::Nothing)
                } else {
                    match item {
                        ModelStreamItem::Closed => (
                            ModelSession { phase: Phase::Terminated, ..s },
                            ModelAction::Nothing,
                        ),
                        ModelStreamItem::Undecodable => (s, ModelAction::SkipLog),
                        ModelStreamItem::Transfer(t) => match find_descriptor(
                            s.descriptors,
                            t.contract,
                            0,
                        ) {
                            None => (s, ModelAction::SkipLog),
                            Some(d) => (
                                s,
                                ModelAction::Emit { transfer: t, name: d.name, symbol: d.symbol },
                            ),
                        },
                    }
                }
            } else {
                (s, ModelAction::Nothing)
            }
        },
        ModelEvent::Disconnect => (ModelSession { cancelled: true, ..s }, ModelAction::Nothing),
    }
}

/// The state after a sequence of events, and the actions of its steps, in
/// order.
pub open spec fn run_steps(s: ModelSession, evs: Seq<ModelEvent>) -> (ModelSession, Seq<
    ModelAction,
>)
    decreases evs.len(),
{
    if evs.len() == 0 {
        (s, Seq::empty())
    } else {
        let first = spec_step(s, evs[0]);
        let rest = run_steps(first.0, evs.drop_first());
        (rest.0, seq![first.1] + rest.1)
    }
}

/// With pairwise-distinct addresses, the search from any position at or
/// before a descriptor's own finds exactly that descriptor.
pub proof fn lemma_find_descriptor_from(descs: Seq<ModelDescriptor>, j: int, i: int)
    requires
        0 <= j <= i < descs.len(),
        forall|p: int, q: int|
            0 <= p < q < descs.len() ==> (#[trigger] descs[p].address) != (#[trigger]
            descs[q].address),
    ensures
        find_descriptor(descs, descs[i].address, j) == Some(descs[i]),
    decreases i - j,
{
    if j < i {
        lemma_find_descriptor_from(descs, j + 1, i);
    }
}

/// The descriptor cache holds at most one entry per address: when its
/// addresses are pairwise distinct — as the deduplicated, validated
/// address set yields — looking up any cached address returns exactly the
/// descriptor stored for it, the one resolved at validation.
pub proof fn lemma_cache_lookup_exact(descs: Seq<ModelDescriptor>, i: int)
    requires
        0 <= i < descs.len(),
        forall|p: int, q: int|
            0 <= p < q < descs.len() ==> (#[trigger] descs[p].address) != (#[trigger]
            descs[q].address),
    ensures
        find_descriptor(descs, descs[i].address, 0) == Some(descs[i]),
{
    lemma_find_descriptor_from(descs, 0, i);
}

/// An address no descriptor holds is never found: the streaming loop skips
/// such an event rather than inventing an identity.
pub proof fn lemma_cache_lookup_miss(descs: Seq<ModelDescriptor>, a: Seq<u8>, j: int)
    requires
        forall|k: int| 0 <= k < descs.len() ==> (#[trigger] descs[k].address) != a,
    ensures
        find_descriptor(descs, a, j) is None,
    decreases descs.len() - j,
{
    if 0 <= j < descs.len() {
        lemma_cache_lookup_miss(descs, a, j + 1);
    }
}

/// Cancellation is irreversible: no step clears the flag.
pub proof fn lemma_cancellation_monotonic(s: ModelSession, ev: ModelEvent)
    ensures
        s.cancelled ==> spec_step(s, ev).0.cancelled,
{
}

/// A terminated session is inert: whatever still arrives, it stays
/// terminated and asks for nothing.
pub proof fn lemma_terminated_inert(s: ModelSession, evs: Seq<ModelEvent>)
    requires
        s.phase is Terminated,
    ensures
        run_steps(s, evs).0.phase is Terminated,
        run_steps(s, evs).1.len() == evs.len(),
        forall|i: int| 0 <= i < evs.len() ==> run_steps(s, evs).1[i] is Nothing,
    decreases evs.len(),
{
    if evs.len() > 0 {
        let first = spec_step(s, evs[0]);
        lemma_terminated_inert(first.0, evs.drop_first());
    }
}

/// After the disconnect signal has set the cancellation flag, no further
/// transfer is emitted, whatever events — buffered stream items included —
/// still arrive.
pub proof fn lemma_no_emission_after_cancellation(s: ModelSession, evs: Seq<ModelEvent>)
    requires
        s.cancelled,
    ensures
        run_steps(s, evs).1.len() == evs.len(),
        forall|i: int| 0 <= i < evs.len() ==> !(run_steps(s, evs).1[i] is Emit),
    decreases evs.len(),
{
    if evs.len() > 0 {
        let first = spec_step(s, evs[0]);
        lemma_cancellation_monotonic(s, evs[0]);
        lemma_no_emission_after_cancellation(first.0, evs.drop_first());
    }
}

/// An empty address list is rejected outright: the step emits the
/// input error, terminates the session, and — the session being inert from
/// then on — no later event makes it validate, subscribe or emit.
pub proof fn lemma_empty_request_rejected(
    s: ModelSession,
    chain: ChainId,
    evs: Seq<ModelEvent>,
)
    requires
        s.phase is Idle,
    ensures
        spec_step(s, ModelEvent::Request { chain, addresses: Seq::empty() }).1
            == ModelAction::EmitError(ModelError::EmptyInput),
        spec_step(s, ModelEvent::Request { chain, addresses: Seq::empty() }).0.phase
            is Terminated,
        forall|i: int|
            0 <= i < evs.len() ==> run_steps(
                spec_step(s, ModelEvent::Request { chain, addresses: Seq::empty() }).0,
                evs,
            ).1[i] is Nothing,
{
    let s1 = spec_step(s, ModelEvent::Request { chain, addresses: Seq::empty() }).0;
    lemma_terminated_inert(s1, evs);
}

/// All-or-nothing, at the session level: when validation rejects the
/// request — as it does whenever any address of the batch fails — the step
/// emits that single error, terminates the session, and no later event
/// makes it emit anything, for any address of the request.
pub proof fn lemma_rejected_validation_is_terminal(
    s: ModelSession,
    e: ModelError,
    evs: Seq<ModelEvent>,
)
    requires
        s.phase is Validating,
    ensures
        spec_step(s, ModelEvent::ValidationOutcome { result: Err(e) }).1
            == ModelAction::EmitError(e),
        spec_step(s, ModelEvent::ValidationOutcome { result: Err(e) }).0.phase is Terminated,
        forall|i: int|
            0 <= i < evs.len() ==> run_steps(
                spec_step(s, ModelEvent::ValidationOutcome { result: Err(e) }).0,
                evs,
            ).1[i] is Nothing,
{
    let s1 = spec_step(s, ModelEvent::ValidationOutcome { result: Err(e) }).0;
    lemma_terminated_inert(s1, evs);
}

/// Dedup stability: a request that repeats an address already in its list
/// moves the session to the very same state and submits the very same
/// batch as the request without the repetition — three calls per distinct
/// address, in one batched call either way.
pub proof fn lemma_duplicate_address_same_batch(
    s: ModelSession,
    chain: ChainId,
    addresses: Seq<Seq<u8>>,
    a: Seq<u8>,
)
    requires
        s.phase is Idle,
        addresses.contains(a),
    ensures
        spec_step(s, ModelEvent::Request { chain, addresses: addresses.push(a) }) == spec_step(
            s,
            ModelEvent::Request { chain, addresses },
        ),
{
    lemma_dedup_drops_duplicate(addresses, a);
    let i = choose|i: int| 0 <= i < addresses.len() && addresses[i] == a;
    assert(addresses.len() > 0);
}

/// The bytes and text of a descriptor.
pub open spec fn desc_model(d: TokenDescriptor) -> ModelDescriptor {
    ModelDescriptor { address: d.address@, name: d.name@, symbol: d.symbol@ }
}

/// The bytes and text of a raw transfer event.
pub open spec fn transfer_model(t: RawTransferEvent) -> ModelTransfer {
    ModelTransfer {
        contract: t.contract@,
        from: t.from@,
        to: t.to@,
        token_id: t.token_id@,
        block_number: t.block_number,
        transaction_hash: t.transaction_hash@,
    }
}

/// The bytes of a session error.
pub open spec fn error_model(e: SessionError) -> ModelError {
    match e {
        SessionError::EmptyInput => ModelError::EmptyInput,
        SessionError::AddressInvalid(a) => ModelError::AddressInvalid(a@),
        SessionError::Transport => ModelError::Transport,
        SessionError::SubscribeFailed => ModelError::SubscribeFailed,
    }
}

/// One arrival on the live log stream, as the loop hands it in.
pub enum StreamItem {
    /// The stream closed upstream.
    Closed,
    /// A log entry that did not decode as a transfer.
    Undecodable,
    /// A decoded transfer.
    Transfer(RawTransferEvent),
}

/// The item a stream arrival holds.
pub open spec fn item_model(it: StreamItem) -> ModelStreamItem {
    match it {
        StreamItem::Closed => ModelStreamItem::Closed,
        StreamItem::Undecodable => ModelStreamItem::Undecodable,
        StreamItem::Transfer(t) => ModelStreamItem::Transfer(transfer_model(t)),
    }
}

/// One event a session reacts to, as the surrounding process hands it in.
pub enum SessionEvent {
    /// An inbound subscription request.
    Request { chain: ChainId, addresses: Vec<Address> },
    /// The interpreted outcome of the batched validation call.
    ValidationOutcome { result: Result<Vec<TokenDescriptor>, SessionError> },
    /// Whether opening the log subscription succeeded.
    SubscribeOutcome { ok: bool },
    /// The next arrival on the open stream.
    Stream { item: StreamItem },
    /// The transport-level disconnect signal.
    Disconnect,
}

/// The model of an event.
pub open spec fn event_model(ev: SessionEvent) -> ModelEvent {
    match ev {
        SessionEvent::Request { chain, addresses } => ModelEvent::Request {
            chain,
            addresses: addr_views(addresses@),
        },
        SessionEvent::ValidationOutcome { result } => ModelEvent::ValidationOutcome {
            result: match result {
                Ok(descs) => Ok(descs@.map_values(|d: TokenDescriptor| desc_model(d))),
                Err(e) => Err(error_model(e)),
            },
        },
        SessionEvent::SubscribeOutcome { ok } => ModelEvent::SubscribeOutcome { ok },
        SessionEvent::Stream { item } => ModelEvent::Stream { item: item_model(item) },
        SessionEvent::Disconnect => ModelEvent::Disconnect,
    }
}

/// What a step asks the surrounding process to do.
pub enum SessionAction {
    Nothing,
    /// Emit a single terminal error message.
    EmitError(SessionError),
    /// Submit this batch as one batched read call for these deduplicated
    /// addresses.
    StartValidation { chain: ChainId, addresses: Vec<Address>, batch: Vec<BatchCall> },
    /// Open the live log subscription for these validated addresses.
    OpenSubscription { addresses: Vec<Address> },
    /// Spawn the background streaming loop.
    StartStreaming,
    /// Skip this log entry and keep streaming.
    SkipLog,
    /// Enrich and emit this transfer with the cached identity.
    Emit { transfer: RawTransferEvent, name: String, symbol: String },
}

/// The model of an action.
pub open spec fn action_model(a: SessionAction) -> ModelAction {
    match a {
        SessionAction::Nothing => ModelAction::Nothing,
        SessionAction::EmitError(e) => ModelAction::EmitError(error_model(e)),
        SessionAction::StartValidation { chain, addresses, batch } => ModelAction::StartValidation {
            chain,
            addresses: addr_views(addresses@),
            batch: batch_views(batch@),
        },
        SessionAction::OpenSubscription { addresses } => ModelAction::OpenSubscription {
            addresses: addr_views(addresses@),
        },
        SessionAction::StartStreaming => ModelAction::StartStreaming,
        SessionAction::SkipLog => ModelAction::SkipLog,
        SessionAction::Emit { transfer, name, symbol } => ModelAction::Emit {
            transfer: transfer_model(transfer),
            name: name@,
            symbol: symbol@,
        },
    }
}

/// A per-connection session. Created on connection, stepped by the
/// surrounding process with each event, destroyed when terminated.
pub struct Session {
    connection_id: String,
    phase: Phase,
    cancelled: bool,
    chain: Option<ChainId>,
    addresses: Vec<Address>,
    descriptors: Vec<TokenDescriptor>,
}

impl View for Session {
    type V = ModelSession;

    closed spec fn view(&self) -> ModelSession {
        ModelSession {
            phase: self.phase,
            cancelled: self.cancelled,
            chain: self.chain,
            addresses: addr_views(self.addresses@),
            descriptors: self.descriptors@.map_values(|d: TokenDescriptor| desc_model(d)),
        }
    }
}

/// Copies an address vector.
fn clone_addresses(v: &Vec<Address>) -> (r: Vec<Address>)
    ensures
        addr_views(r@) == addr_views(v@),
{
    let mut r: Vec<Address> = Vec::new();
    let mut i: usize = 0;
    while i < v.len()
        invariant
            i <= v.len(),
            r@.len() == i,
            forall|k: int| 0 <= k < i ==> (#[trigger] r@[k])@ == v@[k]@,
        decreases v.len() - i,
    {
        r.push(v[i].clone());
        i = i + 1;
    }
    proof {
        assert(addr_views(r@) =~= addr_views(v@));
    }
    r
}

impl Session {
    /// The text identifying the connection this session serves.
    pub closed spec fn spec_id(&self) -> Seq<char> {
        self.connection_id@
    }

    /// Opens a session for one connection, in the idle state with the
    /// cancellation flag clear.
    pub fn new(connection_id: String) -> (s: Session)
        ensures
            s@ == initial_session(),
            s.spec_id() == connection_id@,
    {
        let s = Session {
            connection_id,
            phase: Phase::Idle,
            cancelled: false,
            chain: None,
            addresses: Vec::new(),
            descriptors: Vec::new(),
        };
        proof {
            assert(s@ =~= initial_session());
        }
        s
    }

    /// The connection identifier, for stamping outbound messages.
    pub fn connection_id(&self) -> (r: &String)
        ensures
            r@ == self.spec_id(),
    {
        &self.connection_id
    }

    /// The phase the session is in.
    pub fn phase(&self) -> (p: Phase)
        ensures
            p == self@.phase,
    {
        self.phase
    }

    /// Whether the disconnect signal has set the cancellation flag.
    pub fn is_cancelled(&self) -> (c: bool)
        ensures
            c == self@.cancelled,
    {
        self.cancelled
    }

    /// Looks up the cached descriptor of a contract address and hands back
    /// its name and symbol.
    fn lookup_descriptor(&self, a: &Address) -> (r: Option<(String, String)>)
        ensures
            match find_descriptor(self@.descriptors, a@, 0) {
                Some(d) => r matches Some(p) && p.0@ == d.name && p.1@ == d.symbol,
                None => r is None,
            },
    {
        let ghost m = self@.descriptors;
        let mut i: usize = 0;
        while i < self.descriptors.len()
            invariant
                m == self@.descriptors,
                m.len() == self.descriptors@.len(),
                i <= self.descriptors@.len(),
                find_descriptor(m, a@, 0) == find_descriptor(m, a@, i as int),
            decreases self.descriptors@.len() - i,
        {
            if addr_eq(&self.descriptors[i].address, a) {
                let d = &self.descriptors[i];
                return Some((d.name.clone(), d.symbol.clone()));
            }
            i = i + 1;
        }
        None
    }

    /// Feeds one event to the session and returns the action it asks for:
    /// one step of the machine that `spec_step` describes.
    pub fn step(&mut self, ev: SessionEvent) -> (a: SessionAction)
        ensures
            final(self)@ == spec_step(old(self)@, event_model(ev)).0,
            action_model(a) == spec_step(old(self)@, event_model(ev)).1,
            final(self).spec_id() == old(self).spec_id(),
    {
        match ev {
            SessionEvent::Request { chain, addresses } => {
                if self.phase == Phase::Idle {
                    if addresses.len() == 0 {
                        self.phase = Phase::Terminated;
                        SessionAction::EmitError(SessionError::EmptyInput)
                    } else {
                        let unique = dedup_addresses(&addresses);
                        let batch = build_validation_batch(&unique);
                        self.phase = Phase::Validating;
                        self.chain = Some(chain);
                        self.addresses = unique;
                        SessionAction::StartValidation {
                            chain,
                            addresses: clone_addresses(&self.addresses),
                            batch,
                        }
                    }
                } else {
                    SessionAction::Nothing
                }
            },
            SessionEvent::ValidationOutcome { result } => {
                if self.phase == Phase::Validating {
                    match result {
                        Ok(descs) => {
                            self.phase = Phase::Subscribed;
                            self.descriptors = descs;
                            SessionAction::OpenSubscription {
                                addresses: clone_addresses(&self.addresses),
                            }
                        },
                        Err(e) => {
                            self.phase = Phase::Terminated;
                            SessionAction::EmitError(e)
                        },
                    }
                } else {
                    SessionAction::Nothing
                }
            },
            SessionEvent::SubscribeOutcome { ok } => {
                if self.phase == Phase::Subscribed {
                    if ok {
                        self.phase = Phase::Streaming;
                        SessionAction::StartStreaming
                    } else {
                        self.phase = Phase::Terminated;
                        SessionAction::EmitError(SessionError::SubscribeFailed)
                    }
                } else {
                    SessionAction::Nothing
                }
            },
            SessionEvent::Stream { item } => {
                if self.phase == Phase::Streaming {
                    if self.cancelled {
                        self.phase = Phase::Terminated;
                        SessionAction::Nothing
                    } else {
                        match item {
                            StreamItem::Closed => {
                                self.phase = Phase::Terminated;
                                SessionAction::Nothing
                            },
                            StreamItem::Undecodable => SessionAction::SkipLog,
                            StreamItem::Transfer(t) => {
                                match self.lookup_descriptor(&t.contract) {
                                    None => SessionAction::SkipLog,
                                    Some((name, symbol)) => SessionAction::Emit {
                                        transfer: t,
                                        name,
                                        symbol,
                                    },
                                }
                            },
                        }
                    }
                } else {
                    SessionAction::Nothing
                }
            },
            SessionEvent::Disconnect => {
                self.cancelled = true;
                SessionAction::Nothing
            },
        }
    }
}

} // verus!
