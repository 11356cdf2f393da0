//! Laws of the server model: properties that hold of every state and every
//! message, proved once over [`crate::state::spec_serve`].  The executable
//! server follows that model exactly, so each law holds of it too.
//!
//! Two further laws live elsewhere: clearing of the routing tables when the
//! last client clocks out is an `ensures` of
//! [`crate::server::InMemoryServer::clock_out`], and distinctness and shape
//! of minted request identifiers are [`crate::ids::lemma_request_ids_distinct`]
//! and [`crate::ids::lemma_request_id_form`].

use vstd::prelude::*;
use crate::ids::{bucket_id_of, req_id_of};
use crate::protocol::{
    EntryDataView, FailureResultDataView, FetchEntryDataView, FetchEntryResultDataView,
    ProtocolMessageView, TrackDnaDataView,
};
use crate::state::{
    EffectView, NetError, ServerView, Transition, add_requests, book_list, empty_server,
    multicast_effects, no_nodes_error, publish_entry_step, serve_fetch_entry, serve_track_dna,
    spec_serve,
};

verus! {

/// Law: serving any `TrackDna` leaves the bucket tracked, so the multicast
/// and the handshake of [`serve_track_dna`] can happen at most once per
/// `(dna, agent)` pair, however often the message is repeated.
pub proof fn lemma_track_dna_records(s: ServerView, d: TrackDnaDataView)
    ensures
        spec_serve(s, ProtocolMessageView::TrackDna(d)).server.trackdna_book.contains(
            bucket_id_of(d.dna_address, d.agent_id),
        ),
{
}

/// Law: a `TrackDna` for a bucket already tracked is ignored: no state
/// change, no emission, success.
pub proof fn lemma_track_dna_idempotent(s: ServerView, d: TrackDnaDataView)
    requires
        s.trackdna_book.contains(bucket_id_of(d.dna_address, d.agent_id)),
    ensures
        spec_serve(s, ProtocolMessageView::TrackDna(d)) == (Transition {
            server: s,
            effects: Seq::<EffectView>::empty(),
            outcome: Ok::<(), NetError>(()),
        }),
{
}

/// Law: no message untracks a bucket: what `trackdna_book` holds before a
/// serve it still holds after.  With the two lemmas above, at most one
/// `PeerConnected` multicast happens per `(dna, agent)` pair across any
/// sequence of served messages.
pub proof fn lemma_serve_keeps_tracked(s: ServerView, m: ProtocolMessageView, bucket: Seq<u8>)
    requires
        s.trackdna_book.contains(bucket),
    ensures
        spec_serve(s, m).server.trackdna_book.contains(bucket),
{
}

/// Law: a served message never lowers the request counter, so a request
/// identifier minted once (`req_id_of(n)` for the `n`-th mint) is never
/// minted again; with [`crate::ids::lemma_request_ids_distinct`], all
/// identifiers one server issues are pairwise distinct.
pub proof fn lemma_serve_count_monotonic(s: ServerView, m: ProtocolMessageView)
    ensures
        spec_serve(s, m).server.request_count >= s.request_count,
{
}

/// Law: a successful publish stores the entry address in the provider's
/// published book and emits exactly one `HandleStoreEntry`, with the
/// published payload, to each slot of the DNA's multicast list, in
/// registration order (an agent registered twice holds two slots).
pub proof fn lemma_publish_entry_fan_out(s: ServerView, d: EntryDataView)
    ensures
        ({
            let t = publish_entry_step(s, d);
            let sinks = if s.senders_by_dna.contains_key(d.dna_address) {
                s.senders_by_dna[d.dna_address]
            } else {
                Seq::<u64>::empty()
            };
            &&& t.outcome == Ok::<(), NetError>(())
            &&& t.effects.len() == sinks.len()
            &&& forall|i: int| 0 <= i < sinks.len() ==> t.effects[i] == (EffectView {
                target: sinks[i],
                message: ProtocolMessageView::HandleStoreEntry(d),
            })
            &&& book_list(
                t.server.published_entry_book,
                bucket_id_of(d.dna_address, d.provider_agent_id),
            ).contains(d.entry_address)
            &&& t.server.published_entry_book == crate::state::spec_bookkeep(
                s.published_entry_book,
                bucket_id_of(d.dna_address, d.provider_agent_id),
                d.entry_address,
            )
        }),
{
    let t = publish_entry_step(s, d);
    let bucket = bucket_id_of(d.dna_address, d.provider_agent_id);
    let stored = book_list(t.server.published_entry_book, bucket);
    assert(stored.last() == d.entry_address);
    assert(stored.contains(d.entry_address));
}

/// Law: a fetch on a DNA with no sinks touches no state; when the requester
/// itself is routable it receives exactly one fabricated `FailureResult`
/// carrying the fetch's request identifier, the requester as addressee and
/// the fixed error text; when it is not, the serve fails as `NoRoute` with
/// no emission.
pub proof fn lemma_fetch_entry_no_peers(s: ServerView, d: FetchEntryDataView)
    requires
        !(s.senders_by_dna.contains_key(d.dna_address) && s.senders_by_dna[d.dna_address].len()
            > 0),
    ensures
        ({
            let t = serve_fetch_entry(s, d);
            let bucket = bucket_id_of(d.dna_address, d.requester_agent_id);
            &&& t.server == s
            &&& s.senders.contains_key(bucket) ==> t.effects == seq![
                EffectView {
                    target: s.senders[bucket],
                    message: ProtocolMessageView::FailureResult(
                        FailureResultDataView {
                            dna_address: d.dna_address,
                            request_id: d.request_id,
                            to_agent_id: d.requester_agent_id,
                            error_info: no_nodes_error(),
                        },
                    ),
                },
            ] && t.outcome == Ok::<(), NetError>(())
            &&& !s.senders.contains_key(bucket) ==> t.effects == Seq::<EffectView>::empty()
                && t.outcome == Err::<(), NetError>(NetError::NoRoute)
        }),
{
}

/// Law: a `HandleFetchEntryResult` answering a request the server issued is
/// served exactly as a `PublishEntry` of the same payload would be, on the
/// state with that request consumed; the request identifier leaves the
/// ledger.
pub proof fn lemma_internal_fetch_result_publishes(s: ServerView, d: FetchEntryResultDataView)
    requires
        s.request_book.contains_key(d.request_id),
    ensures
        ({
            let consumed = ServerView { request_book: s.request_book.remove(d.request_id), ..s };
            let entry = EntryDataView {
                dna_address: d.dna_address,
                provider_agent_id: d.provider_agent_id,
                entry_address: d.entry_address,
                entry_content: d.entry_content,
            };
            spec_serve(s, ProtocolMessageView::HandleFetchEntryResult(d)) == spec_serve(
                consumed,
                ProtocolMessageView::PublishEntry(entry),
            )
        }),
        !spec_serve(
            s,
            ProtocolMessageView::HandleFetchEntryResult(d),
        ).server.request_book.contains_key(d.request_id),
{
}

/// Every identifier in the request ledger was minted by this server: it is
/// `req_id_of(n)` for some past mint `n`.  An identifier arriving from
/// outside enters the ledger only by colliding with a minted one.
pub open spec fn ledger_ids_minted(s: ServerView) -> bool {
    forall|id: Seq<u8>| #[trigger] s.request_book.contains_key(id) ==> exists|n: nat|
        1 <= n <= s.request_count && id == #[trigger] req_id_of(n)
}

/// A fresh server has an empty ledger, so the minted-ids invariant holds of
/// it trivially.
pub proof fn lemma_new_server_ledger_minted(name: Seq<u8>)
    ensures
        ledger_ids_minted(empty_server(name)),
{
}

proof fn lemma_add_requests_keys(book: Map<Seq<u8>, Seq<u8>>, bucket: Seq<u8>, n0: nat, k: nat)
    ensures
        forall|id: Seq<u8>| #[trigger] add_requests(book, bucket, n0, k).contains_key(id)
            ==> book.contains_key(id) || exists|j: nat| 1 <= j <= k && id == #[trigger] req_id_of(n0 + j),
    decreases k,
{
    if k > 0 {
        lemma_add_requests_keys(book, bucket, n0, (k - 1) as nat);
        assert forall|id: Seq<u8>| #[trigger] add_requests(book, bucket, n0, k).contains_key(id)
            implies book.contains_key(id) || exists|j: nat|
            1 <= j <= k && id == #[trigger] req_id_of(n0 + j) by {
            if id == req_id_of(n0 + k) {
                assert(1 <= k <= k && id == req_id_of(n0 + k));
            } else {
                assert(add_requests(book, bucket, n0, (k - 1) as nat).contains_key(id));
            }
        }
    }
}

proof fn lemma_ledger_after_mint(
    s: ServerView,
    book0: Map<Seq<u8>, Seq<u8>>,
    bucket: Seq<u8>,
    k: nat,
    s2: ServerView,
)
    requires
        ledger_ids_minted(s),
        forall|id: Seq<u8>| #[trigger] book0.contains_key(id) ==> s.request_book.contains_key(id),
        s2.request_book == add_requests(book0, bucket, s.request_count, k),
        s2.request_count == s.request_count + k,
    ensures
        ledger_ids_minted(s2),
{
    lemma_add_requests_keys(book0, bucket, s.request_count, k);
    assert forall|id: Seq<u8>| #[trigger] s2.request_book.contains_key(id) implies exists|n: nat|
        1 <= n <= s2.request_count && id == #[trigger] req_id_of(n) by {
        if book0.contains_key(id) {
            let n = choose|n: nat| 1 <= n <= s.request_count && id == #[trigger] req_id_of(n);
            assert(1 <= n <= s2.request_count && id == req_id_of(n));
        } else {
            let j = choose|j: nat| 1 <= j <= k && id == #[trigger] req_id_of(s.request_count + j);
            let n = s.request_count + j;
            assert(1 <= n <= s2.request_count && id == req_id_of(n));
        }
    }
}

/// Law: every transition keeps the minted-ids invariant, so at every moment
/// the ledger holds only identifiers this server issued.  With
/// [`crate::ids::lemma_request_ids_distinct`], those are pairwise distinct,
/// and never reused once consumed (the counter never falls, see
/// [`lemma_serve_count_monotonic`]).
pub proof fn lemma_serve_keeps_ledger_minted(s: ServerView, m: ProtocolMessageView)
    requires
        ledger_ids_minted(s),
    ensures
        ledger_ids_minted(spec_serve(s, m).server),
{
    let s2 = spec_serve(s, m).server;
    let nobody = Seq::<u8>::empty();
    match m {
        ProtocolMessageView::TrackDna(d) => {
            let bucket = bucket_id_of(d.dna_address, d.agent_id);
            if s.trackdna_book.contains(bucket) {
                lemma_ledger_after_mint(s, s.request_book, nobody, 0, s2);
            } else if s.senders.contains_key(bucket) {
                lemma_ledger_after_mint(s, s.request_book, bucket, 4, s2);
            } else {
                lemma_ledger_after_mint(s, s.request_book, bucket, 1, s2);
            }
        }
        ProtocolMessageView::FailureResult(d) => {
            if s.request_book.contains_key(d.request_id) {
                lemma_ledger_after_mint(s, s.request_book.remove(d.request_id), nobody, 0, s2);
            } else {
                lemma_ledger_after_mint(s, s.request_book, nobody, 0, s2);
            }
        }
        ProtocolMessageView::HandleFetchEntryResult(d) => {
            if s.request_book.contains_key(d.request_id) {
                lemma_ledger_after_mint(s, s.request_book.remove(d.request_id), nobody, 0, s2);
            } else {
                lemma_ledger_after_mint(s, s.request_book, nobody, 0, s2);
            }
        }
        ProtocolMessageView::HandleFetchMetaResult(d) => {
            if s.request_book.contains_key(d.request_id) {
                lemma_ledger_after_mint(s, s.request_book.remove(d.request_id), nobody, 0, s2);
            } else {
                lemma_ledger_after_mint(s, s.request_book, nobody, 0, s2);
            }
        }
        ProtocolMessageView::HandleGetPublishingEntryListResult(d) => {
            if s.request_book.contains_key(d.request_id) {
                let bucket = s.request_book[d.request_id];
                let removed = s.request_book.remove(d.request_id);
                let unknown = crate::state::unknown_addresses(
                    book_list(s.published_entry_book, bucket),
                    d.entry_address_list,
                );
                if unknown.len() == 0 {
                    lemma_ledger_after_mint(s, removed, nobody, 0, s2);
                } else if s.senders.contains_key(bucket) {
                    lemma_ledger_after_mint(s, removed, bucket, unknown.len(), s2);
                } else {
                    lemma_ledger_after_mint(s, removed, bucket, 1, s2);
                }
            } else {
                lemma_ledger_after_mint(s, s.request_book, nobody, 0, s2);
            }
        }
        ProtocolMessageView::HandleGetPublishingMetaListResult(d) => {
            if s.request_book.contains_key(d.request_id) {
                let bucket = s.request_book[d.request_id];
                let removed = s.request_book.remove(d.request_id);
                let unknown = crate::state::unknown_meta_pairs(
                    book_list(s.published_meta_book, bucket),
                    d.meta_list,
                );
                if unknown.len() == 0 {
                    lemma_ledger_after_mint(s, removed, nobody, 0, s2);
                } else if s.senders.contains_key(bucket) {
                    lemma_ledger_after_mint(s, removed, bucket, unknown.len(), s2);
                } else {
                    lemma_ledger_after_mint(s, removed, bucket, 1, s2);
                }
            } else {
                lemma_ledger_after_mint(s, s.request_book, nobody, 0, s2);
            }
        }
        ProtocolMessageView::HandleGetHoldingEntryListResult(d) => {
            if s.request_book.contains_key(d.request_id) {
                lemma_ledger_after_mint(s, s.request_book.remove(d.request_id), nobody, 0, s2);
            } else {
                lemma_ledger_after_mint(s, s.request_book, nobody, 0, s2);
            }
        }
        ProtocolMessageView::HandleGetHoldingMetaListResult(d) => {
            if s.request_book.contains_key(d.request_id) {
                lemma_ledger_after_mint(s, s.request_book.remove(d.request_id), nobody, 0, s2);
            } else {
                lemma_ledger_after_mint(s, s.request_book, nobody, 0, s2);
            }
        }
        _ => {
            lemma_ledger_after_mint(s, s2.request_book, nobody, 0, s2);
        }
    }
}

/// Law: a multicast reaches every slot of the DNA's list, in registration
/// order: the `i`-th emission addresses the `i`-th registered sink.
pub proof fn lemma_multicast_order(s: ServerView, dna: Seq<u8>, m: ProtocolMessageView)
    requires
        s.senders_by_dna.contains_key(dna),
    ensures
        multicast_effects(s, dna, m).len() == s.senders_by_dna[dna].len(),
        forall|i: int| 0 <= i < s.senders_by_dna[dna].len() ==> multicast_effects(s, dna, m)[i]
            == (EffectView { target: s.senders_by_dna[dna][i], message: m }),
{
}

} // verus!

