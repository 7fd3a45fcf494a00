//! Address validation: stable deduplication, construction of the single
//! batched read call, and all-or-nothing interpretation of its results.

use vstd::prelude::*;
use crate::address::{addr_eq, Address};
use crate::token::{SearchError, SessionError, TokenDescriptor};

verus! {

/// The byte sequences of a sequence of addresses.
pub open spec fn addr_views(s: Seq<Address>) -> Seq<Seq<u8>> {
    s.map_values(|a: Address| a@)
}

/// Deduplication that keeps the first occurrence of every address and the
/// order of first occurrences.
pub open spec fn spec_dedup(s: Seq<Seq<u8>>) -> Seq<Seq<u8>>
    decreases s.len(),
{
    if s.len() == 0 {
        Seq::empty()
    } else {
        let p = spec_dedup(s.drop_last());
        if p.contains(s.last()) {
            p
        } else {
            p.push(s.last())
        }
    }
}

/// Deduplication never invents or loses an address.
pub proof fn lemma_dedup_same_elements(s: Seq<Seq<u8>>, a: Seq<u8>)
    ensures
        spec_dedup(s).contains(a) <==> s.contains(a),
    decreases s.len(),
{
    if s.len() > 0 {
        lemma_dedup_same_elements(s.drop_last(), a);
        let p = spec_dedup(s.drop_last());
        let d = spec_dedup(s);
        if s.contains(a) {
            let i = choose|i: int| 0 <= i < s.len() && s[i] == a;
            if i < s.len() - 1 {
                assert(s.drop_last()[i] == a);
                assert(s.drop_last().contains(a));
                assert(p.contains(a));
                let k = choose|k: int| 0 <= k < p.len() && p[k] == a;
                assert(d[k] == a);
            } else {
                if p.contains(s.last()) {
                    let k = choose|k: int| 0 <= k < p.len() && p[k] == s.last();
                    assert(d[k] == a);
                } else {
                    assert(d[p.len() as int] == a);
                }
            }
            assert(d.contains(a));
        }
        if d.contains(a) {
            let k = choose|k: int| 0 <= k < d.len() && d[k] == a;
            if p.contains(s.last()) && k < p.len() || !p.contains(s.last()) && k < p.len() {
                assert(p[k] == a);
                assert(p.contains(a));
                assert(s.drop_last().contains(a));
                let j = choose|j: int| 0 <= j < s.drop_last().len() && s.drop_last()[j] == a;
                assert(s[j] == a);
            } else {
                assert(a == s.last());
                assert(s[s.len() - 1] == a);
            }
            assert(s.contains(a));
        }
    }
}

/// Deduplication leaves no duplicates behind.
pub proof fn lemma_dedup_no_duplicates(s: Seq<Seq<u8>>)
    ensures
        spec_dedup(s).no_duplicates(),
    decreases s.len(),
{
    if s.len() > 0 {
        lemma_dedup_no_duplicates(s.drop_last());
    }
}

/// Appending an address that already occurs leaves the deduplicated
/// sequence unchanged, so a request with repeated addresses builds the same
/// batch as one without them.
pub proof fn lemma_dedup_drops_duplicate(s: Seq<Seq<u8>>, a: Seq<u8>)
    requires
        s.contains(a),
    ensures
        spec_dedup(s.push(a)) == spec_dedup(s),
{
    assert(s.push(a).drop_last() =~= s);
    lemma_dedup_same_elements(s, a);
}

/// Removes duplicate addresses, keeping the first occurrence of each and
/// the order of first occurrences. The resulting order seeds both the batch
/// and the later descriptor lookup, so it must be stable.
pub fn dedup_addresses(addrs: &Vec<Address>) -> (r: Vec<Address>)
    ensures
        addr_views(r@) == spec_dedup(addr_views(addrs@)),
{
    let ghost vs = addr_views(addrs@);
    let mut r: Vec<Address> = Vec::new();
    let mut i: usize = 0;
    while i < addrs.len()
        invariant
            i <= addrs.len(),
            vs == addr_views(addrs@),
            vs.len() == addrs@.len(),
            addr_views(r@) == spec_dedup(vs.take(i as int)),
        decreases addrs.len() - i,
    {
        let mut found = false;
        let mut j: usize = 0;
        while j < r.len()
            invariant
                i < addrs.len(),
                j <= r.len(),
                found <==> exists|k: int| 0 <= k < j && r@[k]@ == addrs@[i as int]@,
            decreases r.len() - j,
        {
            if addr_eq(&r[j], &addrs[i]) {
                found = true;
            }
            j = j + 1;
        }
        proof {
            let p = addr_views(r@);
            if found {
                let k = choose|k: int| 0 <= k < r@.len() && r@[k]@ == addrs@[i as int]@;
                assert(p[k] == vs[i as int]);
                assert(p.contains(vs[i as int]));
            } else {
                assert(forall|k: int| 0 <= k < p.len() ==> #[trigger] p[k] != vs[i as int]);
                assert(!p.contains(vs[i as int]));
            }
            assert(vs.take(i + 1).drop_last() =~= vs.take(i as int));
            assert(vs.take(i + 1).last() == vs[i as int]);
        }
        if !found {
            r.push(addrs[i].clone());
            proof {
                assert(addr_views(r@) =~= spec_dedup(vs.take(i as int)).push(vs[i as int]));
            }
        }
        i = i + 1;
    }
    proof {
        assert(vs.take(vs.len() as int) =~= vs);
    }
    r
}

/// The three read calls made for one address, in batch order.
#[derive(Clone, Copy, Debug, PartialEq, Eq, Structural)]
pub enum CallKind {
    /// The fixed-selector interface-support probe.
    InterfaceProbe,
    /// The token name read.
    Name,
    /// The token symbol read.
    Symbol,
}

/// One read call of the batch: a target contract and which of the three
/// reads it performs.
pub struct BatchCall {
    pub target: Address,
    pub kind: CallKind,
}

/// The target bytes and kind of each call of a batch.
pub open spec fn batch_views(s: Seq<BatchCall>) -> Seq<(Seq<u8>, CallKind)> {
    s.map_values(|c: BatchCall| (c.target@, c.kind))
}

/// The single batch submitted for a deduplicated address sequence: for each
/// address, in order, an interface probe, a name read and a symbol read.
pub open spec fn batch_model(addrs: Seq<Seq<u8>>) -> Seq<(Seq<u8>, CallKind)>
    decreases addrs.len(),
{
    if addrs.len() == 0 {
        Seq::empty()
    } else {
        batch_model(addrs.drop_last())
            + seq![
            (addrs.last(), CallKind::InterfaceProbe),
            (addrs.last(), CallKind::Name),
            (addrs.last(), CallKind::Symbol),
        ]
    }
}

/// A batch holds exactly three calls per address, whatever the address count.
pub proof fn lemma_batch_model_len(addrs: Seq<Seq<u8>>)
    ensures
        batch_model(addrs).len() == 3 * addrs.len(),
    decreases addrs.len(),
{
    if addrs.len() > 0 {
        lemma_batch_model_len(addrs.drop_last());
    }
}

/// The calls of a batch, by position: group `i` holds the probe, name and
/// symbol reads of address `i`, in submission order.
pub proof fn lemma_batch_model_index(addrs: Seq<Seq<u8>>, i: int)
    requires
        0 <= i < addrs.len(),
    ensures
        batch_model(addrs)[3 * i] == (addrs[i], CallKind::InterfaceProbe),
        batch_model(addrs)[3 * i + 1] == (addrs[i], CallKind::Name),
        batch_model(addrs)[3 * i + 2] == (addrs[i], CallKind::Symbol),
    decreases addrs.len(),
{
    lemma_batch_model_len(addrs.drop_last());
    if i < addrs.len() - 1 {
        lemma_batch_model_index(addrs.drop_last(), i);
    }
}

/// Builds the validation batch for a deduplicated address sequence. All the
/// calls are submitted together as one batched call, bounding the network
/// round trips to exactly one regardless of the address count.
pub fn build_validation_batch(addrs: &Vec<Address>) -> (r: Vec<BatchCall>)
    ensures
        batch_views(r@) == batch_model(addr_views(addrs@)),
        r@.len() == 3 * addrs@.len(),
{
    let ghost vs = addr_views(addrs@);
    let mut r: Vec<BatchCall> = Vec::new();
    let mut i: usize = 0;
    while i < addrs.len()
        invariant
            i <= addrs.len(),
            vs == addr_views(addrs@),
            vs.len() == addrs@.len(),
            r@.len() == 3 * i,
            batch_views(r@) == batch_model(vs.take(i as int)),
        decreases addrs.len() - i,
    {
        let ghost prefix = batch_views(r@);
        r.push(BatchCall { target: addrs[i].clone(), kind: CallKind::InterfaceProbe });
        r.push(BatchCall { target: addrs[i].clone(), kind: CallKind::Name });
        r.push(BatchCall { target: addrs[i].clone(), kind: CallKind::Symbol });
        proof {
            assert(vs.take(i + 1).drop_last() =~= vs.take(i as int));
            assert(vs.take(i + 1).last() == vs[i as int]);
            assert(batch_views(r@) =~= prefix
                + seq![
                (vs[i as int], CallKind::InterfaceProbe),
                (vs[i as int], CallKind::Name),
                (vs[i as int], CallKind::Symbol),
            ]);
        }
        i = i + 1;
    }
    proof {
        assert(vs.take(vs.len() as int) =~= vs);
        lemma_batch_model_len(vs);
    }
    r
}

/// The decoded outcome of one call of the batch, as the transport hands it
/// back: a decoded flag, a decoded string, or a decode failure.
pub enum CallOutcome {
    Flag(bool),
    Text(String),
    Failed,
}

/// Whether an interface probe decoded to an affirmative answer.
pub open spec fn outcome_flag(c: CallOutcome) -> bool {
    match c {
        CallOutcome::Flag(b) => b,
        _ => false,
    }
}

/// The text of a decoded string outcome; empty for anything else.
pub open spec fn outcome_text(c: CallOutcome) -> Seq<char> {
    match c {
        CallOutcome::Text(s) => s@,
        _ => Seq::empty(),
    }
}

/// Whether the three results of address group `i` all decoded as required:
/// an affirmative probe, a name string and a symbol string.
pub open spec fn group_ok(results: Seq<CallOutcome>, i: int) -> bool {
    &&& outcome_flag(results[3 * i])
    &&& results[3 * i + 1] is Text
    &&& results[3 * i + 2] is Text
}

/// Whether `j` is the first address group whose results fail the checks.
pub open spec fn first_bad_group(results: Seq<CallOutcome>, n: int, j: int) -> bool {
    &&& 0 <= j < n
    &&& !group_ok(results, j)
    &&& forall|k: int| 0 <= k < j ==> group_ok(results, k)
}

/// Interprets the batch results in fixed groups of three per address, in
/// submission order. All-or-nothing: one bad address rejects the whole
/// request with the first offending address; on success every address gets
/// its descriptor, in the same order as the input.
pub fn interpret_batch_results(addrs: &Vec<Address>, results: &Vec<CallOutcome>) -> (r: Result<
    Vec<TokenDescriptor>,
    SessionError,
>)
    requires
        results@.len() == 3 * addrs@.len(),
    ensures
        r is Ok <==> (forall|i: int| 0 <= i < addrs@.len() ==> group_ok(results@, i)),
        r matches Ok(descs) ==> {
            &&& descs@.len() == addrs@.len()
            &&& forall|i: int|
                0 <= i < addrs@.len() ==> {
                    &&& (#[trigger] descs@[i]).address@ == addrs@[i]@
                    &&& descs@[i].name@ == outcome_text(results@[3 * i + 1])
                    &&& descs@[i].symbol@ == outcome_text(results@[3 * i + 2])
                }
        },
        r matches Err(e) ==> (e matches SessionError::AddressInvalid(a) && exists|j: int|
            #[trigger] first_bad_group(results@, addrs@.len() as int, j) && a@ == addrs@[j]@),
{
    let n = addrs.len();
    let m = results.len();
    let mut descs: Vec<TokenDescriptor> = Vec::new();
    let mut i: usize = 0;
    while i < n
        invariant
            n == addrs@.len(),
            m == results@.len(),
            results@.len() == 3 * n,
            i <= n,
            descs@.len() == i,
            forall|k: int| 0 <= k < i ==> group_ok(results@, k),
            forall|k: int|
                0 <= k < i ==> {
                    &&& (#[trigger] descs@[k]).address@ == addrs@[k]@
                    &&& descs@[k].name@ == outcome_text(results@[3 * k + 1])
                    &&& descs@[k].symbol@ == outcome_text(results@[3 * k + 2])
                },
        decreases n - i,
    {
        let base = 3 * i;
        let flag_ok = match &results[base] {
            CallOutcome::Flag(b) => *b,
            _ => false,
        };
        if !flag_ok {
            proof {
                assert(first_bad_group(results@, n as int, i as int));
            }
            return Err(SessionError::AddressInvalid(addrs[i].clone()));
        }
        let name = match &results[base + 1] {
            CallOutcome::Text(s) => s.clone(),
            _ => {
                proof {
                    assert(first_bad_group(results@, n as int, i as int));
                }
                return Err(SessionError::AddressInvalid(addrs[i].clone()));
            },
        };
        let symbol = match &results[base + 2] {
            CallOutcome::Text(s) => s.clone(),
            _ => {
                proof {
                    assert(first_bad_group(results@, n as int, i as int));
                }
                return Err(SessionError::AddressInvalid(addrs[i].clone()));
            },
        };
        descs.push(TokenDescriptor { address: addrs[i].clone(), name, symbol });
        i = i + 1;
    }
    Ok(descs)
}

/// The batch of the single-address lookup: a name read and a symbol read
/// for one already-probed address, in that order.
pub fn build_search_batch(addr: &Address) -> (r: Vec<BatchCall>)
    ensures
        batch_views(r@) =~= seq![(addr@, CallKind::Name), (addr@, CallKind::Symbol)],
{
    let mut r: Vec<BatchCall> = Vec::new();
    r.push(BatchCall { target: addr.clone(), kind: CallKind::Name });
    r.push(BatchCall { target: addr.clone(), kind: CallKind::Symbol });
    r
}

/// Interprets the single-address lookup: the probe answer decides first,
/// then the name and symbol reads must both decode; each failure maps to
/// its own error.
pub fn interpret_search_results(addr: &Address, supports: bool, results: &Vec<CallOutcome>) -> (r:
    Result<TokenDescriptor, SearchError>)
    requires
        results@.len() == 2,
    ensures
        !supports ==> (r matches Err(e) && e is InvalidAddress),
        supports && !(results@[0] is Text) ==> (r matches Err(e) && e is NameDecode),
        supports && results@[0] is Text && !(results@[1] is Text) ==> (r matches Err(e)
            && e is SymbolDecode),
        supports && results@[0] is Text && results@[1] is Text ==> (r matches Ok(d) && {
            &&& d.address@ == addr@
            &&& d.name@ == outcome_text(results@[0])
            &&& d.symbol@ == outcome_text(results@[1])
        }),
{
    if !supports {
        return Err(SearchError::InvalidAddress);
    }
    let name = match &results[0] {
        CallOutcome::Text(s) => s.clone(),
        _ => {
            return Err(SearchError::NameDecode);
        },
    };
    let symbol = match &results[1] {
        CallOutcome::Text(s) => s.clone(),
        _ => {
            return Err(SearchError::SymbolDecode);
        },
    };
    Ok(TokenDescriptor { address: addr.clone(), name, symbol })
}

} // verus!
