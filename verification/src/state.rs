//! The mathematical model of a server: its state as maps and sets over byte
//! sequences, and the transition it makes on each protocol message.
//!
//! Serving a message yields a [`Transition`]: the state after the message, the
//! messages emitted while handling it (in emission order, each addressed to a
//! registered sink), and whether serving succeeded.  The executable server in
//! [`crate::server`] is proved to follow [`spec_serve`] exactly.

use vstd::prelude::*;
use crate::ids::{bucket_id_of, meta_address_of, req_id_of};
use crate::protocol::{
    DhtMetaDataView, EntryDataView, EntryListDataView, FailureResultDataView,
    FetchEntryDataView, FetchEntryResultDataView, FetchMetaDataView, FetchMetaResultDataView,
    GetListDataView, MessageDataView, MetaListDataView, PeerDataView, ProtocolMessageView,
    ResultDataView, TrackDnaDataView,
};

verus! {

/// Why serving a message failed.
#[derive(Clone, Copy, Debug, PartialEq, Eq, Structural)]
pub enum NetError {
    /// A unicast destination has no registered sink.
    NoRoute,
    /// A list result arrived whose request identifier the server never issued.
    UnknownRequestId,
}

/// A message to emit, addressed to the sink registered under `target`.
#[verifier::ext_equal]
pub struct EffectView {
    pub target: u64,
    pub message: ProtocolMessageView,
}

/// The state of a server.
#[verifier::ext_equal]
pub struct ServerView {
    /// The universe name: the server's identity in the registry.
    pub name: Seq<u8>,
    /// How many clients are clocked in.
    pub client_count: nat,
    /// Bucket identifier to the sink of that agent (unicast).
    pub senders: Map<Seq<u8>, u64>,
    /// DNA address to the sinks of all agents on that DNA, in registration
    /// order (multicast).
    pub senders_by_dna: Map<Seq<u8>, Seq<u64>>,
    /// What each agent claims to publish.
    pub published_entry_book: Map<Seq<u8>, Seq<Seq<u8>>>,
    /// What each agent claims to hold.
    pub stored_entry_book: Map<Seq<u8>, Seq<Seq<u8>>>,
    /// The published book for metadata.
    pub published_meta_book: Map<Seq<u8>, Seq<Seq<u8>>>,
    /// The stored book for metadata, keyed by meta address.
    pub stored_meta_book: Map<Seq<u8>, Seq<Seq<u8>>>,
    /// Buckets whose track handshake has completed.
    pub trackdna_book: Set<Seq<u8>>,
    /// In-flight internal requests: request identifier to originating bucket.
    pub request_book: Map<Seq<u8>, Seq<u8>>,
    /// How many request identifiers this server has minted.
    pub request_count: nat,
}

/// A full transition: state after the message, emissions in order, outcome.
#[verifier::ext_equal]
pub struct Transition {
    pub server: ServerView,
    pub effects: Seq<EffectView>,
    pub outcome: Result<(), NetError>,
}

/// The state of a freshly created server.
pub open spec fn empty_server(name: Seq<u8>) -> ServerView {
    ServerView {
        name: name,
        client_count: 0,
        senders: Map::empty(),
        senders_by_dna: Map::empty(),
        published_entry_book: Map::empty(),
        stored_entry_book: Map::empty(),
        published_meta_book: Map::empty(),
        stored_meta_book: Map::empty(),
        trackdna_book: Set::empty(),
        request_book: Map::empty(),
        request_count: 0,
    }
}

/// The bytes of the error text a fetch with no peers reports:
/// `could not find nodes handling this dnaAddress`.
pub open spec fn no_nodes_error() -> Seq<u8> {
    seq![
        99u8, 111u8, 117u8, 108u8, 100u8, 32u8, 110u8, 111u8, 116u8, 32u8, 102u8, 105u8, 110u8,
        100u8, 32u8, 110u8, 111u8, 100u8, 101u8, 115u8, 32u8, 104u8, 97u8, 110u8, 100u8, 108u8,
        105u8, 110u8, 103u8, 32u8, 116u8, 104u8, 105u8, 115u8, 32u8, 100u8, 110u8, 97u8, 65u8,
        100u8, 100u8, 114u8, 101u8, 115u8, 115u8,
    ]
}

/// The sink registered for `bucket`, if any.
pub open spec fn unicast_target(s: ServerView, bucket: Seq<u8>) -> Option<u64> {
    if s.senders.contains_key(bucket) {
        Some(s.senders[bucket])
    } else {
        None
    }
}

/// One emission of `m` to every sink on `dna`, in registration order.
pub open spec fn multicast_effects(s: ServerView, dna: Seq<u8>, m: ProtocolMessageView) -> Seq<
    EffectView,
> {
    if s.senders_by_dna.contains_key(dna) {
        Seq::new(
            s.senders_by_dna[dna].len(),
            |i: int| EffectView { target: s.senders_by_dna[dna][i], message: m },
        )
    } else {
        Seq::empty()
    }
}

/// The addresses a book holds for `bucket`; empty when the bucket is absent.
pub open spec fn book_list(book: Map<Seq<u8>, Seq<Seq<u8>>>, bucket: Seq<u8>) -> Seq<Seq<u8>> {
    if book.contains_key(bucket) {
        book[bucket]
    } else {
        Seq::empty()
    }
}

/// Append `address` to `book[bucket]`, creating the sequence if absent.
pub open spec fn spec_bookkeep(
    book: Map<Seq<u8>, Seq<Seq<u8>>>,
    bucket: Seq<u8>,
    address: Seq<u8>,
) -> Map<Seq<u8>, Seq<Seq<u8>>> {
    book.insert(bucket, book_list(book, bucket).push(address))
}

/// Remove the first occurrence of `address` from `book[bucket]`, if present.
pub open spec fn spec_unbookkeep(
    book: Map<Seq<u8>, Seq<Seq<u8>>>,
    bucket: Seq<u8>,
    address: Seq<u8>,
) -> Map<Seq<u8>, Seq<Seq<u8>>> {
    match book_list(book, bucket).index_of_first(address) {
        Some(i) => book.insert(bucket, book[bucket].remove(i)),
        None => book,
    }
}

/// Emit `m` to the sink registered for `bucket`; without one, fail with
/// `NoRoute` and emit nothing.  The state never changes.
pub open spec fn unicast_step(s: ServerView, bucket: Seq<u8>, m: ProtocolMessageView) -> Transition {
    match unicast_target(s, bucket) {
        Some(t) => Transition {
            server: s,
            effects: seq![EffectView { target: t, message: m }],
            outcome: Ok(()),
        },
        None => Transition { server: s, effects: Seq::empty(), outcome: Err(NetError::NoRoute) },
    }
}

/// Relay a `SuccessResult` to its addressee.
pub open spec fn serve_success_result(s: ServerView, d: ResultDataView) -> Transition {
    unicast_step(s, bucket_id_of(d.dna_address, d.to_agent_id), ProtocolMessageView::SuccessResult(d))
}

/// A failure to one of the server's own requests is swallowed (the request is
/// dropped); any other failure is relayed to its addressee.
pub open spec fn serve_failure_result(s: ServerView, d: FailureResultDataView) -> Transition {
    if s.request_book.contains_key(d.request_id) {
        Transition {
            server: ServerView { request_book: s.request_book.remove(d.request_id), ..s },
            effects: Seq::empty(),
            outcome: Ok(()),
        }
    } else {
        unicast_step(
            s,
            bucket_id_of(d.dna_address, d.to_agent_id),
            ProtocolMessageView::FailureResult(d),
        )
    }
}

/// The request book after minting requests `n0 + 1 ..= n0 + k`, all keyed to
/// `bucket`.
pub open spec fn add_requests(
    book: Map<Seq<u8>, Seq<u8>>,
    bucket: Seq<u8>,
    n0: nat,
    k: nat,
) -> Map<Seq<u8>, Seq<u8>>
    decreases k,
{
    if k == 0 {
        book
    } else {
        add_requests(book, bucket, n0, (k - 1) as nat).insert(req_id_of(n0 + k), bucket)
    }
}

/// The four reconciliation requests sent to a newly tracked agent, in order,
/// carrying requests `n0 + 1 ..= n0 + 4`.
pub open spec fn reconciliation_effects(target: u64, dna: Seq<u8>, n0: nat) -> Seq<EffectView> {
    seq![
        EffectView {
            target: target,
            message: ProtocolMessageView::HandleGetPublishingEntryList(
                GetListDataView { dna_address: dna, request_id: req_id_of(n0 + 1) },
            ),
        },
        EffectView {
            target: target,
            message: ProtocolMessageView::HandleGetHoldingEntryList(
                GetListDataView { dna_address: dna, request_id: req_id_of(n0 + 2) },
            ),
        },
        EffectView {
            target: target,
            message: ProtocolMessageView::HandleGetPublishingMetaList(
                GetListDataView { dna_address: dna, request_id: req_id_of(n0 + 3) },
            ),
        },
        EffectView {
            target: target,
            message: ProtocolMessageView::HandleGetHoldingMetaList(
                GetListDataView { dna_address: dna, request_id: req_id_of(n0 + 4) },
            ),
        },
    ]
}

/// Track an agent on a DNA.  A bucket already tracked is ignored.  Otherwise
/// the bucket is recorded, `PeerConnected` is multicast to the DNA, and the
/// reconciliation handshake (four list requests) is unicast to the agent.
/// Without a sink for the agent the handshake fails after its first request
/// was minted, as `NoRoute`.
pub open spec fn serve_track_dna(s: ServerView, d: TrackDnaDataView) -> Transition {
    let bucket = bucket_id_of(d.dna_address, d.agent_id);
    if s.trackdna_book.contains(bucket) {
        Transition { server: s, effects: Seq::empty(), outcome: Ok(()) }
    } else {
        let s1 = ServerView { trackdna_book: s.trackdna_book.insert(bucket), ..s };
        let peer_fx = multicast_effects(
            s1,
            d.dna_address,
            ProtocolMessageView::PeerConnected(PeerDataView { agent_id: d.agent_id }),
        );
        if s1.senders.contains_key(bucket) {
            let s2 = ServerView {
                request_count: s.request_count + 4,
                request_book: add_requests(s.request_book, bucket, s.request_count, 4),
                ..s1
            };
            Transition {
                server: s2,
                effects: peer_fx + reconciliation_effects(
                    s1.senders[bucket],
                    d.dna_address,
                    s.request_count,
                ),
                outcome: Ok(()),
            }
        } else {
            let s2 = ServerView {
                request_count: s.request_count + 1,
                request_book: add_requests(s.request_book, bucket, s.request_count, 1),
                ..s1
            };
            Transition { server: s2, effects: peer_fx, outcome: Err(NetError::NoRoute) }
        }
    }
}

/// Deliver a direct message to its addressee as `HandleSendMessage`.
pub open spec fn serve_send_message(s: ServerView, d: MessageDataView) -> Transition {
    unicast_step(
        s,
        bucket_id_of(d.dna_address, d.to_agent_id),
        ProtocolMessageView::HandleSendMessage(d),
    )
}

/// Deliver the response to a direct message to the initial sender as
/// `SendMessageResult`.
pub open spec fn serve_handle_send_message_result(s: ServerView, d: MessageDataView) -> Transition {
    unicast_step(
        s,
        bucket_id_of(d.dna_address, d.to_agent_id),
        ProtocolMessageView::SendMessageResult(d),
    )
}

/// Publish an entry: record it in the provider's published book, then
/// multicast a store request to every sink on the DNA.
pub open spec fn publish_entry_step(s: ServerView, d: EntryDataView) -> Transition {
    let bucket = bucket_id_of(d.dna_address, d.provider_agent_id);
    let s1 = ServerView {
        published_entry_book: spec_bookkeep(s.published_entry_book, bucket, d.entry_address),
        ..s
    };
    Transition {
        server: s1,
        effects: multicast_effects(s1, d.dna_address, ProtocolMessageView::HandleStoreEntry(d)),
        outcome: Ok(()),
    }
}

/// Route a fetch to the first sink on the DNA; without one, fabricate a
/// `FailureResult` back to the requester.
pub open spec fn serve_fetch_entry(s: ServerView, d: FetchEntryDataView) -> Transition {
    if s.senders_by_dna.contains_key(d.dna_address) && s.senders_by_dna[d.dna_address].len() > 0 {
        Transition {
            server: s,
            effects: seq![
                EffectView {
                    target: s.senders_by_dna[d.dna_address][0],
                    message: ProtocolMessageView::HandleFetchEntry(d),
                },
            ],
            outcome: Ok(()),
        }
    } else {
        unicast_step(
            s,
            bucket_id_of(d.dna_address, d.requester_agent_id),
            ProtocolMessageView::FailureResult(
                FailureResultDataView {
                    dna_address: d.dna_address,
                    request_id: d.request_id,
                    to_agent_id: d.requester_agent_id,
                    error_info: no_nodes_error(),
                },
            ),
        )
    }
}

/// A fetch result answering one of the server's own requests completes a
/// publish of the fetched entry; any other is relayed to the requester.
pub open spec fn serve_handle_fetch_entry_result(
    s: ServerView,
    d: FetchEntryResultDataView,
) -> Transition {
    if s.request_book.contains_key(d.request_id) {
        let s1 = ServerView { request_book: s.request_book.remove(d.request_id), ..s };
        publish_entry_step(
            s1,
            EntryDataView {
                dna_address: d.dna_address,
                provider_agent_id: d.provider_agent_id,
                entry_address: d.entry_address,
                entry_content: d.entry_content,
            },
        )
    } else {
        unicast_step(
            s,
            bucket_id_of(d.dna_address, d.requester_agent_id),
            ProtocolMessageView::FetchEntryResult(d),
        )
    }
}

/// Publish metadata: multicast a store request to every sink on the DNA.
/// The published meta book is deliberately not written here: published
/// metadata is tracked only through reconciliation, so every advertised
/// meta pair is re-fetched (see [`serve_publishing_meta_list_result`]).
pub open spec fn publish_meta_step(s: ServerView, d: DhtMetaDataView) -> Transition {
    Transition {
        server: s,
        effects: multicast_effects(s, d.dna_address, ProtocolMessageView::HandleStoreMeta(d)),
        outcome: Ok(()),
    }
}

/// Route a metadata fetch to the first sink on the DNA; without one,
/// fabricate a `FailureResult` back to the requester.
pub open spec fn serve_fetch_meta(s: ServerView, d: FetchMetaDataView) -> Transition {
    if s.senders_by_dna.contains_key(d.dna_address) && s.senders_by_dna[d.dna_address].len() > 0 {
        Transition {
            server: s,
            effects: seq![
                EffectView {
                    target: s.senders_by_dna[d.dna_address][0],
                    message: ProtocolMessageView::HandleFetchMeta(d),
                },
            ],
            outcome: Ok(()),
        }
    } else {
        unicast_step(
            s,
            bucket_id_of(d.dna_address, d.requester_agent_id),
            ProtocolMessageView::FailureResult(
                FailureResultDataView {
                    dna_address: d.dna_address,
                    request_id: d.request_id,
                    to_agent_id: d.requester_agent_id,
                    error_info: no_nodes_error(),
                },
            ),
        )
    }
}

/// A metadata fetch result answering one of the server's own requests
/// completes a publish of the fetched metadata; any other is relayed.
pub open spec fn serve_handle_fetch_meta_result(
    s: ServerView,
    d: FetchMetaResultDataView,
) -> Transition {
    if s.request_book.contains_key(d.request_id) {
        let s1 = ServerView { request_book: s.request_book.remove(d.request_id), ..s };
        publish_meta_step(
            s1,
            DhtMetaDataView {
                dna_address: d.dna_address,
                provider_agent_id: d.provider_agent_id,
                entry_address: d.entry_address,
                attribute: d.attribute,
                content: d.content,
            },
        )
    } else {
        unicast_step(
            s,
            bucket_id_of(d.dna_address, d.requester_agent_id),
            ProtocolMessageView::FetchMetaResult(d),
        )
    }
}

/// The internal fetches issued for the advertised entry addresses not yet
/// published: the `i`-th carries request `n0 + i + 1`.
pub open spec fn fetch_entry_request_effects(
    target: u64,
    dna: Seq<u8>,
    n0: nat,
    addrs: Seq<Seq<u8>>,
) -> Seq<EffectView> {
    Seq::new(
        addrs.len(),
        |i: int| EffectView {
            target: target,
            message: ProtocolMessageView::HandleFetchEntry(
                FetchEntryDataView {
                    dna_address: dna,
                    requester_agent_id: Seq::empty(),
                    request_id: req_id_of((n0 + i + 1) as nat),
                    entry_address: addrs[i],
                },
            ),
        },
    )
}

/// The internal fetches issued for the advertised `(data, attribute)` pairs
/// whose data address is not yet published.
pub open spec fn fetch_meta_request_effects(
    target: u64,
    dna: Seq<u8>,
    n0: nat,
    pairs: Seq<(Seq<u8>, Seq<u8>)>,
) -> Seq<EffectView> {
    Seq::new(
        pairs.len(),
        |i: int| EffectView {
            target: target,
            message: ProtocolMessageView::HandleFetchMeta(
                FetchMetaDataView {
                    dna_address: dna,
                    requester_agent_id: Seq::empty(),
                    request_id: req_id_of((n0 + i + 1) as nat),
                    entry_address: pairs[i].0,
                    attribute: pairs[i].1,
                },
            ),
        },
    )
}

/// The subsequence of `addrs` (order and duplicates kept) whose members are
/// not in `known`.
pub open spec fn unknown_addresses(known: Seq<Seq<u8>>, addrs: Seq<Seq<u8>>) -> Seq<Seq<u8>>
    decreases addrs.len(),
{
    if addrs.len() == 0 {
        Seq::empty()
    } else {
        let rest = unknown_addresses(known, addrs.drop_last());
        if known.contains(addrs.last()) {
            rest
        } else {
            rest.push(addrs.last())
        }
    }
}

/// The subsequence of `pairs` whose data address is not in `known`.
pub open spec fn unknown_meta_pairs(known: Seq<Seq<u8>>, pairs: Seq<(Seq<u8>, Seq<u8>)>) -> Seq<
    (Seq<u8>, Seq<u8>),
>
    decreases pairs.len(),
{
    if pairs.len() == 0 {
        Seq::empty()
    } else {
        let rest = unknown_meta_pairs(known, pairs.drop_last());
        if known.contains(pairs.last().0) {
            rest
        } else {
            rest.push(pairs.last())
        }
    }
}

/// The unknown subsequence is no longer than the list it came from.
pub proof fn lemma_unknown_addresses_len(known: Seq<Seq<u8>>, addrs: Seq<Seq<u8>>)
    ensures
        unknown_addresses(known, addrs).len() <= addrs.len(),
    decreases addrs.len(),
{
    if addrs.len() > 0 {
        lemma_unknown_addresses_len(known, addrs.drop_last());
    }
}

/// A member of `addrs` outside `known` makes the unknown subsequence
/// non-empty.
pub proof fn lemma_unknown_addresses_nonempty(known: Seq<Seq<u8>>, addrs: Seq<Seq<u8>>, i: int)
    requires
        0 <= i < addrs.len(),
        !known.contains(addrs[i]),
    ensures
        unknown_addresses(known, addrs).len() > 0,
    decreases addrs.len(),
{
    if i < addrs.len() - 1 {
        assert(addrs.drop_last()[i] == addrs[i]);
        lemma_unknown_addresses_nonempty(known, addrs.drop_last(), i);
    }
}

/// The unknown subsequence of pairs is no longer than the list it came from.
pub proof fn lemma_unknown_meta_pairs_len(known: Seq<Seq<u8>>, pairs: Seq<(Seq<u8>, Seq<u8>)>)
    ensures
        unknown_meta_pairs(known, pairs).len() <= pairs.len(),
    decreases pairs.len(),
{
    if pairs.len() > 0 {
        lemma_unknown_meta_pairs_len(known, pairs.drop_last());
    }
}

/// A pair whose data address is outside `known` makes the unknown
/// subsequence non-empty.
pub proof fn lemma_unknown_meta_pairs_nonempty(
    known: Seq<Seq<u8>>,
    pairs: Seq<(Seq<u8>, Seq<u8>)>,
    i: int,
)
    requires
        0 <= i < pairs.len(),
        !known.contains(pairs[i].0),
    ensures
        unknown_meta_pairs(known, pairs).len() > 0,
    decreases pairs.len(),
{
    if i < pairs.len() - 1 {
        assert(pairs.drop_last()[i] == pairs[i]);
        lemma_unknown_meta_pairs_nonempty(known, pairs.drop_last(), i);
    }
}

/// An agent answered the request for its publishing list.  The request must
/// be one the server issued; else the serve fails as `UnknownRequestId`.
/// For every advertised address not already in the agent's published book,
/// the server mints a fresh request and unicasts an internal fetch to the
/// agent.  Without a sink for the agent the first such fetch fails as
/// `NoRoute`, after its request was minted.
pub open spec fn serve_publishing_entry_list_result(
    s: ServerView,
    d: EntryListDataView,
) -> Transition {
    if !s.request_book.contains_key(d.request_id) {
        Transition { server: s, effects: Seq::empty(), outcome: Err(NetError::UnknownRequestId) }
    } else {
        let bucket = s.request_book[d.request_id];
        let s1 = ServerView { request_book: s.request_book.remove(d.request_id), ..s };
        let known = book_list(s.published_entry_book, bucket);
        let unknown = unknown_addresses(known, d.entry_address_list);
        if unknown.len() == 0 {
            Transition { server: s1, effects: Seq::empty(), outcome: Ok(()) }
        } else if s.senders.contains_key(bucket) {
            let s2 = ServerView {
                request_count: s.request_count + unknown.len(),
                request_book: add_requests(s1.request_book, bucket, s.request_count, unknown.len()),
                ..s1
            };
            Transition {
                server: s2,
                effects: fetch_entry_request_effects(
                    s.senders[bucket],
                    d.dna_address,
                    s.request_count,
                    unknown,
                ),
                outcome: Ok(()),
            }
        } else {
            let s2 = ServerView {
                request_count: s.request_count + 1,
                request_book: add_requests(s1.request_book, bucket, s.request_count, 1),
                ..s1
            };
            Transition { server: s2, effects: Seq::empty(), outcome: Err(NetError::NoRoute) }
        }
    }
}

/// Append to `book[bucket]` every address of `addrs`, in order, that the
/// bucket's list does not already hold at that point.
pub open spec fn store_new_addresses(
    book: Map<Seq<u8>, Seq<Seq<u8>>>,
    bucket: Seq<u8>,
    addrs: Seq<Seq<u8>>,
) -> Map<Seq<u8>, Seq<Seq<u8>>>
    decreases addrs.len(),
{
    if addrs.len() == 0 {
        book
    } else {
        let b1 = if book_list(book, bucket).contains(addrs[0]) {
            book
        } else {
            spec_bookkeep(book, bucket, addrs[0])
        };
        store_new_addresses(b1, bucket, addrs.drop_first())
    }
}

/// An agent answered the request for its holding list: record every address
/// not already recorded.  Nothing is emitted.
pub open spec fn serve_holding_entry_list_result(
    s: ServerView,
    d: EntryListDataView,
) -> Transition {
    if !s.request_book.contains_key(d.request_id) {
        Transition { server: s, effects: Seq::empty(), outcome: Err(NetError::UnknownRequestId) }
    } else {
        let bucket = s.request_book[d.request_id];
        let s1 = ServerView {
            request_book: s.request_book.remove(d.request_id),
            stored_entry_book: store_new_addresses(
                s.stored_entry_book,
                bucket,
                d.entry_address_list,
            ),
            ..s
        };
        Transition { server: s1, effects: Seq::empty(), outcome: Ok(()) }
    }
}

/// An agent answered the request for its publishing meta list.  Analogous to
/// the entry case, over `(data, attribute)` pairs; the comparison is against
/// the data addresses in the agent's published meta book.
pub open spec fn serve_publishing_meta_list_result(
    s: ServerView,
    d: MetaListDataView,
) -> Transition {
    if !s.request_book.contains_key(d.request_id) {
        Transition { server: s, effects: Seq::empty(), outcome: Err(NetError::UnknownRequestId) }
    } else {
        let bucket = s.request_book[d.request_id];
        let s1 = ServerView { request_book: s.request_book.remove(d.request_id), ..s };
        let known = book_list(s.published_meta_book, bucket);
        let unknown = unknown_meta_pairs(known, d.meta_list);
        if unknown.len() == 0 {
            Transition { server: s1, effects: Seq::empty(), outcome: Ok(()) }
        } else if s.senders.contains_key(bucket) {
            let s2 = ServerView {
                request_count: s.request_count + unknown.len(),
                request_book: add_requests(s1.request_book, bucket, s.request_count, unknown.len()),
                ..s1
            };
            Transition {
                server: s2,
                effects: fetch_meta_request_effects(
                    s.senders[bucket],
                    d.dna_address,
                    s.request_count,
                    unknown,
                ),
                outcome: Ok(()),
            }
        } else {
            let s2 = ServerView {
                request_count: s.request_count + 1,
                request_book: add_requests(s1.request_book, bucket, s.request_count, 1),
                ..s1
            };
            Transition { server: s2, effects: Seq::empty(), outcome: Err(NetError::NoRoute) }
        }
    }
}

/// Append to `book[bucket]` the meta address of every pair whose meta address
/// the bucket's list does not already hold at that point.
pub open spec fn store_new_meta(
    book: Map<Seq<u8>, Seq<Seq<u8>>>,
    bucket: Seq<u8>,
    pairs: Seq<(Seq<u8>, Seq<u8>)>,
) -> Map<Seq<u8>, Seq<Seq<u8>>>
    decreases pairs.len(),
{
    if pairs.len() == 0 {
        book
    } else {
        let meta = meta_address_of(pairs[0].0, pairs[0].1);
        let b1 = if book_list(book, bucket).contains(meta) {
            book
        } else {
            spec_bookkeep(book, bucket, meta)
        };
        store_new_meta(b1, bucket, pairs.drop_first())
    }
}

/// An agent answered the request for its holding meta list: record the meta
/// address of every pair not already recorded.  Nothing is emitted.
pub open spec fn serve_holding_meta_list_result(s: ServerView, d: MetaListDataView) -> Transition {
    if !s.request_book.contains_key(d.request_id) {
        Transition { server: s, effects: Seq::empty(), outcome: Err(NetError::UnknownRequestId) }
    } else {
        let bucket = s.request_book[d.request_id];
        let s1 = ServerView {
            request_book: s.request_book.remove(d.request_id),
            stored_meta_book: store_new_meta(s.stored_meta_book, bucket, d.meta_list),
            ..s
        };
        Transition { server: s1, effects: Seq::empty(), outcome: Ok(()) }
    }
}

/// The transition a server makes on one inbound message.  Variants the server
/// does not handle (including `Unknown`) are ignored.
pub open spec fn spec_serve(s: ServerView, m: ProtocolMessageView) -> Transition {
    match m {
        ProtocolMessageView::SuccessResult(d) => serve_success_result(s, d),
        ProtocolMessageView::FailureResult(d) => serve_failure_result(s, d),
        ProtocolMessageView::TrackDna(d) => serve_track_dna(s, d),
        ProtocolMessageView::SendMessage(d) => serve_send_message(s, d),
        ProtocolMessageView::HandleSendMessageResult(d) => serve_handle_send_message_result(s, d),
        ProtocolMessageView::PublishEntry(d) => publish_entry_step(s, d),
        ProtocolMessageView::FetchEntry(d) => serve_fetch_entry(s, d),
        ProtocolMessageView::HandleFetchEntryResult(d) => serve_handle_fetch_entry_result(s, d),
        ProtocolMessageView::PublishMeta(d) => publish_meta_step(s, d),
        ProtocolMessageView::FetchMeta(d) => serve_fetch_meta(s, d),
        ProtocolMessageView::HandleFetchMetaResult(d) => serve_handle_fetch_meta_result(s, d),
        ProtocolMessageView::HandleGetPublishingEntryListResult(d) =>
            serve_publishing_entry_list_result(s, d),
        ProtocolMessageView::HandleGetHoldingEntryListResult(d) =>
            serve_holding_entry_list_result(s, d),
        ProtocolMessageView::HandleGetPublishingMetaListResult(d) =>
            serve_publishing_meta_list_result(s, d),
        ProtocolMessageView::HandleGetHoldingMetaListResult(d) =>
            serve_holding_meta_list_result(s, d),
        _ => Transition { server: s, effects: Seq::empty(), outcome: Ok(()) },
    }
}

/// How many request identifiers serving `m` may mint: the headroom the
/// server's counter must have so minting cannot overflow.
pub open spec fn mint_budget(m: ProtocolMessageView) -> nat {
    match m {
        ProtocolMessageView::TrackDna(_) => 4,
        ProtocolMessageView::HandleGetPublishingEntryListResult(d) => d.entry_address_list.len(),
        ProtocolMessageView::HandleGetPublishingMetaListResult(d) => d.meta_list.len(),
        _ => 0,
    }
}

/// Register a sink for an agent: the bucket entry is overwritten, and the
/// sink is appended to the DNA's multicast list (re-registration duplicates
/// it there, as the spec of the original service has it).
pub open spec fn spec_register(s: ServerView, dna: Seq<u8>, agent: Seq<u8>, sink: u64) -> ServerView {
    let bucket = bucket_id_of(dna, agent);
    let dna_list = if s.senders_by_dna.contains_key(dna) {
        s.senders_by_dna[dna]
    } else {
        Seq::empty()
    };
    ServerView {
        senders: s.senders.insert(bucket, sink),
        senders_by_dna: s.senders_by_dna.insert(dna, dna_list.push(sink)),
        ..s
    }
}

/// Clock a client out; when the last client leaves, the routing tables are
/// cleared (the books are retained).
pub open spec fn spec_clock_out(s: ServerView) -> ServerView {
    if s.client_count == 1 {
        ServerView {
            client_count: 0,
            senders: Map::empty(),
            senders_by_dna: Map::empty(),
            ..s
        }
    } else {
        ServerView { client_count: (s.client_count - 1) as nat, ..s }
    }
}

} // verus!
