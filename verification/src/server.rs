//! The in-memory server: the executable state machine.
//!
//! Every public operation is proved to follow the mathematical model in
//! [`crate::state`].  Serving a message appends the emissions to `out`, each
//! addressed to the sink of a registered agent; the embedder performs the
//! sends (and handles a failed send as a transport error, as the sink
//! contract has it).

use vstd::prelude::*;
use crate::book::{AddressBook, book_contains_address, bookkeep_address};
use crate::ids::{
    bytes_list_contains, cat_dna_agent, clone_bytes, format_request_id, meta_to_address, req_id_of,
};
use crate::kv::{ByteSet, KvList};
use crate::protocol::{
    DhtMetaData, EntryData, EntryListData, FailureResultData, FetchEntryData,
    FetchEntryResultData, FetchMetaData, FetchMetaResultData, GetListData, MessageData,
    MetaListData, PeerData, ProtocolMessage, ResultData, TrackDnaData,
};
use crate::protocol::clone_bytes_list;
use crate::state::{
    NetError, ServerView, Transition, add_requests, book_list, empty_server,
    fetch_entry_request_effects, fetch_meta_request_effects, lemma_unknown_addresses_len,
    lemma_unknown_addresses_nonempty, lemma_unknown_meta_pairs_len,
    lemma_unknown_meta_pairs_nonempty, mint_budget, multicast_effects, no_nodes_error,
    publish_entry_step, publish_meta_step, serve_failure_result, serve_fetch_entry,
    serve_fetch_meta, serve_handle_fetch_entry_result, serve_handle_fetch_meta_result,
    serve_handle_send_message_result, serve_holding_entry_list_result,
    serve_holding_meta_list_result, serve_publishing_entry_list_result,
    serve_publishing_meta_list_result, serve_send_message, serve_success_result, serve_track_dna,
    spec_clock_out, spec_register, spec_serve, store_new_addresses, store_new_meta,
    unicast_step, unknown_addresses, unknown_meta_pairs,
};

verus! {

broadcast use crate::ids::lemma_bytes_deep_view, crate::kv::lemma_sink_list_deep_view;

/// A message to emit through the sink registered under `target`.  The server
/// computes effects; the embedder performs the sends, in order.
pub struct Effect {
    pub target: u64,
    pub message: ProtocolMessage,
}

impl View for Effect {
    type V = crate::state::EffectView;

    open spec fn view(&self) -> crate::state::EffectView {
        crate::state::EffectView { target: self.target, message: self.message@ }
    }
}

/// The emissions a sequence of effects stands for.
pub open spec fn effects_view(s: Seq<Effect>) -> Seq<crate::state::EffectView> {
    Seq::new(s.len(), |i: int| s[i]@)
}

/// Whether an operation took the server from `pre_out` to `post_out` and left
/// it in `post` exactly as transition `t` prescribes.
pub open spec fn matches_transition(
    post: ServerView,
    pre_out: Seq<Effect>,
    post_out: Seq<Effect>,
    r: Result<(), NetError>,
    t: Transition,
) -> bool {
    &&& post == t.server
    &&& effects_view(post_out) == effects_view(pre_out) + t.effects
    &&& r == t.outcome
}

/// The error text a fetch with no peers reports, as executable bytes.
fn no_nodes_error_bytes() -> (r: Vec<u8>)
    ensures
        r@ == no_nodes_error(),
{
    let r: Vec<u8> = vec![
        99u8, 111u8, 117u8, 108u8, 100u8, 32u8, 110u8, 111u8, 116u8, 32u8, 102u8, 105u8, 110u8,
        100u8, 32u8, 110u8, 111u8, 100u8, 101u8, 115u8, 32u8, 104u8, 97u8, 110u8, 100u8, 108u8,
        105u8, 110u8, 103u8, 32u8, 116u8, 104u8, 105u8, 115u8, 32u8, 100u8, 110u8, 97u8, 65u8,
        100u8, 100u8, 114u8, 101u8, 115u8, 115u8,
    ];
    proof {
        assert(r@ =~= no_nodes_error());
    }
    r
}

/// A server routing messages between the agents of one universe.
pub struct InMemoryServer {
    name: Vec<u8>,
    client_count: usize,
    senders: KvList<u64>,
    senders_by_dna: KvList<Vec<u64>>,
    published_entry_book: AddressBook,
    stored_entry_book: AddressBook,
    published_meta_book: AddressBook,
    stored_meta_book: AddressBook,
    trackdna_book: ByteSet,
    request_book: KvList<Vec<u8>>,
    request_count: u64,
}

impl View for InMemoryServer {
    type V = ServerView;

    closed spec fn view(&self) -> ServerView {
        ServerView {
            name: self.name@,
            client_count: self.client_count as nat,
            senders: self.senders@,
            senders_by_dna: self.senders_by_dna@,
            published_entry_book: self.published_entry_book@,
            stored_entry_book: self.stored_entry_book@,
            published_meta_book: self.published_meta_book@,
            stored_meta_book: self.stored_meta_book@,
            trackdna_book: self.trackdna_book@,
            request_book: self.request_book@,
            request_count: self.request_count as nat,
        }
    }
}

impl InMemoryServer {
    /// Create a new in-memory network server for the universe called `name`.
    pub fn new(name: Vec<u8>) -> (r: Self)
        ensures
            r@ == empty_server(name@),
    {
        let r = InMemoryServer {
            name: name,
            client_count: 0,
            senders: KvList::new(),
            senders_by_dna: KvList::new(),
            published_entry_book: KvList::new(),
            stored_entry_book: KvList::new(),
            published_meta_book: KvList::new(),
            stored_meta_book: KvList::new(),
            trackdna_book: ByteSet::new(),
            request_book: KvList::new(),
            request_count: 0,
        };
        proof {
            assert(r@ =~= empty_server(r.name@));
        }
        r
    }

    /// The universe name this server serves.
    pub fn name(&self) -> (r: &Vec<u8>)
        ensures
            r@ == self@.name,
    {
        &self.name
    }

    /// How many clients are clocked in.
    pub fn client_count(&self) -> (r: usize)
        ensures
            r == self@.client_count,
    {
        self.client_count
    }

    /// How many request identifiers this server has minted.  An embedder can
    /// test the headroom [`Self::serve`] asks for against this counter.
    pub fn request_count(&self) -> (r: u64)
        ensures
            r == self@.request_count,
    {
        self.request_count
    }

    /// A client clocks in on this server.
    pub fn clock_in(&mut self)
        requires
            old(self)@.client_count < usize::MAX,
        ensures
            final(self)@ == (ServerView { client_count: old(self)@.client_count + 1, ..old(self)@ }),
    {
        self.client_count = self.client_count + 1;
        proof {
            assert(self@ =~= (ServerView { client_count: old(self)@.client_count + 1, ..old(self)@ }));
        }
    }

    /// A client clocks out of this server.  When the last client leaves, the
    /// routing tables are cleared; the books are retained.
    pub fn clock_out(&mut self)
        requires
            old(self)@.client_count > 0,
        ensures
            final(self)@ == spec_clock_out(old(self)@),
            final(self)@.client_count == 0 ==> final(self)@.senders == Map::<Seq<u8>, u64>::empty()
                && final(self)@.senders_by_dna == Map::<Seq<u8>, Seq<u64>>::empty(),
    {
        self.client_count = self.client_count - 1;
        if self.client_count == 0 {
            self.senders.clear();
            self.senders_by_dna.clear();
        }
        proof {
            assert(self@ =~= spec_clock_out(old(self)@));
        }
    }

    /// Register a sink for an agent on a DNA.  The bucket entry is
    /// overwritten; the sink is appended to the DNA's multicast list, so
    /// re-registering an agent duplicates its sink there.  The asymmetry is
    /// deliberate and [`spec_register`] states it exactly.
    pub fn register(&mut self, dna_address: &Vec<u8>, agent_id: &Vec<u8>, sink: u64) -> (r: Result<
        (),
        NetError,
    >)
        ensures
            final(self)@ == spec_register(old(self)@, dna_address@, agent_id@, sink),
            r == Ok::<(), NetError>(()),
    {
        let bucket = cat_dna_agent(dna_address, agent_id);
        self.senders.set(bucket, sink);
        let mut list: Vec<u64> = match self.senders_by_dna.remove(dna_address) {
            Some(l) => l,
            None => Vec::new(),
        };
        list.push(sink);
        self.senders_by_dna.set(clone_bytes(dna_address), list);
        proof {
            assert(self@.senders_by_dna =~= spec_register(
                old(self)@,
                dna_address@,
                agent_id@,
                sink,
            ).senders_by_dna);
            assert(self@ =~= spec_register(old(self)@, dna_address@, agent_id@, sink));
        }
        Ok(())
    }

    /// Mint the next request identifier and record it in the ledger, keyed to
    /// `bucket`.
    fn create_request(&mut self, bucket: &Vec<u8>) -> (r: Vec<u8>)
        requires
            old(self)@.request_count + 1 <= u64::MAX,
        ensures
            r@ == req_id_of(old(self)@.request_count + 1),
            final(self)@ == (ServerView {
                request_count: old(self)@.request_count + 1,
                request_book: old(self)@.request_book.insert(
                    req_id_of(old(self)@.request_count + 1),
                    bucket@,
                ),
                ..old(self)@
            }),
    {
        self.request_count = self.request_count + 1;
        let id = format_request_id(self.request_count);
        self.request_book.set(clone_bytes(&id), clone_bytes(bucket));
        proof {
            assert(self@ =~= (ServerView {
                request_count: old(self)@.request_count + 1,
                request_book: old(self)@.request_book.insert(
                    req_id_of(old(self)@.request_count + 1),
                    bucket@,
                ),
                ..old(self)@
            }));
        }
        id
    }

    /// Emit `message` to the sink registered for `bucket`; without one, fail
    /// with `NoRoute` and emit nothing.
    fn unicast(&self, bucket: &Vec<u8>, message: ProtocolMessage, out: &mut Vec<Effect>) -> (r:
        Result<(), NetError>)
        ensures
            matches_transition(self@, old(out)@, final(out)@, r, unicast_step(
                self@,
                bucket@,
                message@,
            )),
    {
        let ghost gm = message@;
        match self.senders.get(bucket) {
            Some(target) => {
                let t = *target;
                out.push(Effect { target: t, message: message });
                proof {
                    assert(effects_view(out@) =~= effects_view(old(out)@) + unicast_step(
                        self@,
                        bucket@,
                        gm,
                    ).effects);
                }
                Ok(())
            }
            None => {
                proof {
                    assert(effects_view(out@) =~= effects_view(old(out)@) + Seq::<
                        crate::state::EffectView,
                    >::empty());
                }
                Err(NetError::NoRoute)
            }
        }
    }

    /// Emit `message` to every sink on `dna_address`, in registration order.
    fn multicast(&self, dna_address: &Vec<u8>, message: &ProtocolMessage, out: &mut Vec<Effect>)
        ensures
            effects_view(final(out)@) == effects_view(old(out)@) + multicast_effects(
                self@,
                dna_address@,
                message@,
            ),
    {
        let ghost fx = multicast_effects(self@, dna_address@, message@);
        match self.senders_by_dna.get(dna_address) {
            None => {
                proof {
                    assert(effects_view(out@) =~= effects_view(old(out)@) + fx);
                }
            }
            Some(sinks) => {
                proof {
                    assert(sinks@ == self@.senders_by_dna[dna_address@]);
                    assert(fx.len() == sinks@.len());
                }
                let mut i: usize = 0;
                while i < sinks.len()
                    invariant
                        i <= sinks@.len(),
                        sinks@ == self@.senders_by_dna[dna_address@],
                        self@.senders_by_dna.contains_key(dna_address@),
                        fx == multicast_effects(self@, dna_address@, message@),
                        fx.len() == sinks@.len(),
                        effects_view(out@) == effects_view(old(out)@) + fx.subrange(0, i as int),
                    decreases sinks@.len() - i,
                {
                    let ghost prev = out@;
                    out.push(Effect { target: sinks[i], message: message.clone() });
                    proof {
                        assert(out@[prev.len() as int]@ == fx[i as int]);
                        assert(forall|j: int| 0 <= j < prev.len() ==> out@[j] == prev[j]);
                        assert(effects_view(out@) =~= effects_view(prev).push(fx[i as int]));
                        assert(fx.subrange(0, i + 1) =~= fx.subrange(0, i as int).push(
                            fx[i as int],
                        ));
                        assert((effects_view(old(out)@) + fx.subrange(0, i as int)).push(
                            fx[i as int],
                        ) =~= effects_view(old(out)@) + fx.subrange(0, i as int).push(
                            fx[i as int],
                        ));
                    }
                    i = i + 1;
                }
                proof {
                    assert(fx.subrange(0, fx.len() as int) =~= fx);
                }
            }
        }
    }

    /// The first sink registered on a DNA, if any.
    fn first_sink(&self, dna_address: &Vec<u8>) -> (r: Option<u64>)
        ensures
            match r {
                Some(t) => self@.senders_by_dna.contains_key(dna_address@)
                    && self@.senders_by_dna[dna_address@].len() > 0 && t
                    == self@.senders_by_dna[dna_address@][0],
                None => !(self@.senders_by_dna.contains_key(dna_address@)
                    && self@.senders_by_dna[dna_address@].len() > 0),
            },
    {
        match self.senders_by_dna.get(dna_address) {
            Some(sinks) => {
                if sinks.len() > 0 {
                    Some(sinks[0])
                } else {
                    None
                }
            }
            None => None,
        }
    }

    /// Deliver a direct message to its addressee as `HandleSendMessage`.
    fn priv_serve_send_message(&self, d: MessageData, out: &mut Vec<Effect>) -> (r: Result<
        (),
        NetError,
    >)
        ensures
            matches_transition(self@, old(out)@, final(out)@, r, serve_send_message(self@, d@)),
    {
        let bucket = cat_dna_agent(&d.dna_address, &d.to_agent_id);
        self.unicast(&bucket, ProtocolMessage::HandleSendMessage(d), out)
    }

    /// Deliver the response to a direct message to the initial sender as
    /// `SendMessageResult`.
    fn priv_serve_handle_send_message_result(
        &self,
        d: MessageData,
        out: &mut Vec<Effect>,
    ) -> (r: Result<(), NetError>)
        ensures
            matches_transition(
                self@,
                old(out)@,
                final(out)@,
                r,
                serve_handle_send_message_result(self@, d@),
            ),
    {
        let bucket = cat_dna_agent(&d.dna_address, &d.to_agent_id);
        self.unicast(&bucket, ProtocolMessage::SendMessageResult(d), out)
    }

    /// Publish metadata: multicast a store request to every sink on the DNA.
    fn priv_publish_meta(&self, d: DhtMetaData, out: &mut Vec<Effect>) -> (r: Result<
        (),
        NetError,
    >)
        ensures
            matches_transition(self@, old(out)@, final(out)@, r, publish_meta_step(self@, d@)),
    {
        let dna = clone_bytes(&d.dna_address);
        let msg = ProtocolMessage::HandleStoreMeta(d);
        self.multicast(&dna, &msg, out);
        Ok(())
    }

    /// Route a metadata fetch to the first sink on the DNA; without one,
    /// fabricate a `FailureResult` back to the requester.
    fn priv_serve_fetch_meta(&self, d: FetchMetaData, out: &mut Vec<Effect>) -> (r: Result<
        (),
        NetError,
    >)
        ensures
            matches_transition(self@, old(out)@, final(out)@, r, serve_fetch_meta(self@, d@)),
    {
        let ghost t = serve_fetch_meta(self@, d@);
        match self.first_sink(&d.dna_address) {
            Some(target) => {
                out.push(Effect { target: target, message: ProtocolMessage::HandleFetchMeta(d) });
                proof {
                    assert(effects_view(out@) =~= effects_view(old(out)@) + t.effects);
                }
                Ok(())
            }
            None => {
                let bucket = cat_dna_agent(&d.dna_address, &d.requester_agent_id);
                let failure = FailureResultData {
                    dna_address: clone_bytes(&d.dna_address),
                    to_agent_id: clone_bytes(&d.requester_agent_id),
                    request_id: d.request_id,
                    error_info: no_nodes_error_bytes(),
                };
                self.unicast(&bucket, ProtocolMessage::FailureResult(failure), out)
            }
        }
    }

    /// A metadata fetch result answering one of the server's own requests
    /// completes a publish of the fetched metadata; any other is relayed.
    fn priv_serve_handle_fetch_meta_result(
        &mut self,
        d: FetchMetaResultData,
        out: &mut Vec<Effect>,
    ) -> (r: Result<(), NetError>)
        ensures
            matches_transition(
                final(self)@,
                old(out)@,
                final(out)@,
                r,
                serve_handle_fetch_meta_result(old(self)@, d@),
            ),
    {
        match self.request_book.remove(&d.request_id) {
            Some(_bucket) => {
                proof {
                    assert(self@ =~= serve_handle_fetch_meta_result(old(self)@, d@).server);
                }
                let meta = DhtMetaData {
                    dna_address: d.dna_address,
                    provider_agent_id: d.provider_agent_id,
                    entry_address: d.entry_address,
                    attribute: d.attribute,
                    content: d.content,
                };
                self.priv_publish_meta(meta, out)
            }
            None => {
                proof {
                    assert(self@.request_book =~= old(self)@.request_book);
                    assert(self@ =~= old(self)@);
                }
                let bucket = cat_dna_agent(&d.dna_address, &d.requester_agent_id);
                self.unicast(&bucket, ProtocolMessage::FetchMetaResult(d), out)
            }
        }
    }

    /// Relay a `SuccessResult` to its addressee.
    fn priv_serve_success_result(
        &self,
        d: ResultData,
        out: &mut Vec<Effect>,
    ) -> (r: Result<(), NetError>)
        ensures
            matches_transition(self@, old(out)@, final(out)@, r, serve_success_result(self@, d@)),
    {
        let bucket = cat_dna_agent(&d.dna_address, &d.to_agent_id);
        self.unicast(&bucket, ProtocolMessage::SuccessResult(d), out)
    }

    /// A failure to one of the server's own requests is swallowed; any other
    /// failure is relayed to its addressee.
    fn priv_serve_failure_result(
        &mut self,
        d: FailureResultData,
        out: &mut Vec<Effect>,
    ) -> (r: Result<(), NetError>)
        ensures
            matches_transition(final(self)@, old(out)@, final(out)@, r, serve_failure_result(
                old(self)@,
                d@,
            )),
    {
        match self.request_book.remove(&d.request_id) {
            Some(_bucket) => {
                proof {
                    assert(self@ =~= serve_failure_result(old(self)@, d@).server);
                    assert(effects_view(out@) =~= effects_view(out@) + Seq::<
                        crate::state::EffectView,
                    >::empty());
                }
                Ok(())
            }
            None => {
                proof {
                    assert(self@.request_book =~= old(self)@.request_book);
                    assert(self@ =~= old(self)@);
                }
                let bucket = cat_dna_agent(&d.dna_address, &d.to_agent_id);
                self.unicast(&bucket, ProtocolMessage::FailureResult(d), out)
            }
        }
    }

    /// Track an agent on a DNA: record the bucket, notify the DNA's peers,
    /// and start the reconciliation handshake.
    fn priv_serve_track_dna(&mut self, d: TrackDnaData, out: &mut Vec<Effect>) -> (r: Result<
        (),
        NetError,
    >)
        requires
            old(self)@.request_count + 4 <= u64::MAX,
        ensures
            matches_transition(final(self)@, old(out)@, final(out)@, r, serve_track_dna(
                old(self)@,
                d@,
            )),
    {
        let ghost t = serve_track_dna(old(self)@, d@);
        let bucket = cat_dna_agent(&d.dna_address, &d.agent_id);
        if self.trackdna_book.contains(&bucket) {
            proof {
                assert(effects_view(out@) =~= effects_view(out@) + t.effects);
            }
            return Ok(());
        }
        let ghost s0 = old(self)@;
        let ghost n0 = s0.request_count;
        self.trackdna_book.insert(clone_bytes(&bucket));
        let ghost s1 = self@;
        proof {
            assert(s1 =~= (ServerView { trackdna_book: s0.trackdna_book.insert(bucket@), ..s0 }));
            reveal_with_fuel(add_requests, 5);
        }
        let peer = ProtocolMessage::PeerConnected(PeerData { agent_id: clone_bytes(&d.agent_id) });
        self.multicast(&d.dna_address, &peer, out);
        let rid1 = self.create_request(&bucket);
        let m1 = ProtocolMessage::HandleGetPublishingEntryList(
            GetListData { dna_address: clone_bytes(&d.dna_address), request_id: rid1 },
        );
        match self.unicast(&bucket, m1, out) {
            Err(e) => {
                proof {
                    assert(self@ =~= t.server);
                    assert(effects_view(out@) =~= effects_view(old(out)@) + t.effects);
                }
                return Err(e);
            }
            Ok(_) => {}
        }
        let rid2 = self.create_request(&bucket);
        let m2 = ProtocolMessage::HandleGetHoldingEntryList(
            GetListData { dna_address: clone_bytes(&d.dna_address), request_id: rid2 },
        );
        self.unicast(&bucket, m2, out)?;
        let rid3 = self.create_request(&bucket);
        let m3 = ProtocolMessage::HandleGetPublishingMetaList(
            GetListData { dna_address: clone_bytes(&d.dna_address), request_id: rid3 },
        );
        self.unicast(&bucket, m3, out)?;
        let rid4 = self.create_request(&bucket);
        let m4 = ProtocolMessage::HandleGetHoldingMetaList(
            GetListData { dna_address: clone_bytes(&d.dna_address), request_id: rid4 },
        );
        self.unicast(&bucket, m4, out)?;
        proof {
            assert(self@ =~= t.server);
            assert(effects_view(out@) =~= effects_view(old(out)@) + t.effects);
        }
        Ok(())
    }

    /// Publish an entry: record it in the provider's published book, then
    /// multicast a store request to every sink on the DNA.
    fn priv_publish_entry(&mut self, d: EntryData, out: &mut Vec<Effect>) -> (r: Result<
        (),
        NetError,
    >)
        ensures
            matches_transition(final(self)@, old(out)@, final(out)@, r, publish_entry_step(
                old(self)@,
                d@,
            )),
    {
        let ghost t = publish_entry_step(old(self)@, d@);
        let bucket = cat_dna_agent(&d.dna_address, &d.provider_agent_id);
        bookkeep_address(&mut self.published_entry_book, &bucket, &d.entry_address);
        proof {
            assert(self@ =~= t.server);
        }
        let dna = clone_bytes(&d.dna_address);
        let msg = ProtocolMessage::HandleStoreEntry(d);
        self.multicast(&dna, &msg, out);
        Ok(())
    }

    /// Route a fetch to the first sink on the DNA; without one, fabricate a
    /// `FailureResult` back to the requester.
    fn priv_serve_fetch_entry(&self, d: FetchEntryData, out: &mut Vec<Effect>) -> (r: Result<
        (),
        NetError,
    >)
        ensures
            matches_transition(self@, old(out)@, final(out)@, r, serve_fetch_entry(self@, d@)),
    {
        let ghost t = serve_fetch_entry(self@, d@);
        match self.first_sink(&d.dna_address) {
            Some(target) => {
                out.push(Effect { target: target, message: ProtocolMessage::HandleFetchEntry(d) });
                proof {
                    assert(effects_view(out@) =~= effects_view(old(out)@) + t.effects);
                }
                Ok(())
            }
            None => {
                let bucket = cat_dna_agent(&d.dna_address, &d.requester_agent_id);
                let failure = FailureResultData {
                    dna_address: clone_bytes(&d.dna_address),
                    to_agent_id: clone_bytes(&d.requester_agent_id),
                    request_id: d.request_id,
                    error_info: no_nodes_error_bytes(),
                };
                self.unicast(&bucket, ProtocolMessage::FailureResult(failure), out)
            }
        }
    }

    /// A fetch result answering one of the server's own requests completes a
    /// publish of the fetched entry; any other is relayed to the requester.
    fn priv_serve_handle_fetch_entry_result(
        &mut self,
        d: FetchEntryResultData,
        out: &mut Vec<Effect>,
    ) -> (r: Result<(), NetError>)
        ensures
            matches_transition(
                final(self)@,
                old(out)@,
                final(out)@,
                r,
                serve_handle_fetch_entry_result(old(self)@, d@),
            ),
    {
        match self.request_book.remove(&d.request_id) {
            Some(_bucket) => {
                let entry = EntryData {
                    dna_address: d.dna_address,
                    provider_agent_id: d.provider_agent_id,
                    entry_address: d.entry_address,
                    entry_content: d.entry_content,
                };
                self.priv_publish_entry(entry, out)
            }
            None => {
                proof {
                    assert(self@.request_book =~= old(self)@.request_book);
                    assert(self@ =~= old(self)@);
                }
                let bucket = cat_dna_agent(&d.dna_address, &d.requester_agent_id);
                self.unicast(&bucket, ProtocolMessage::FetchEntryResult(d), out)
            }
        }
    }

    /// An agent answered the request for its publishing list: unicast an
    /// internal fetch to the agent for every advertised address not already
    /// in its published book.
    fn priv_serve_publishing_entry_list_result(
        &mut self,
        d: EntryListData,
        out: &mut Vec<Effect>,
    ) -> (r: Result<(), NetError>)
        requires
            old(self)@.request_count + d@.entry_address_list.len() <= u64::MAX,
        ensures
            matches_transition(
                final(self)@,
                old(out)@,
                final(out)@,
                r,
                serve_publishing_entry_list_result(old(self)@, d@),
            ),
    {
        let ghost t = serve_publishing_entry_list_result(old(self)@, d@);
        let bucket = match self.request_book.remove(&d.request_id) {
            None => {
                proof {
                    assert(self@.request_book =~= old(self)@.request_book);
                    assert(self@ =~= old(self)@);
                    assert(effects_view(out@) =~= effects_view(out@) + t.effects);
                }
                return Err(NetError::UnknownRequestId);
            }
            Some(b) => b,
        };
        let known: Vec<Vec<u8>> = match self.published_entry_book.get(&bucket) {
            Some(l) => clone_bytes_list(l),
            None => Vec::new(),
        };
        let ghost knownv = book_list(old(self)@.published_entry_book, bucket@);
        let ghost full = d@.entry_address_list;
        proof {
            assert(known.deep_view() =~= knownv);
            assert(full.subrange(0, 0) =~= Seq::<Seq<u8>>::empty());
            assert(effects_view(out@) =~= effects_view(old(out)@) + fetch_entry_request_effects(
                old(self)@.senders[bucket@],
                d@.dna_address,
                old(self)@.request_count,
                unknown_addresses(knownv, full.subrange(0, 0)),
            ));
            assert(self@ =~= (ServerView {
                request_count: old(self)@.request_count + unknown_addresses(
                    knownv,
                    full.subrange(0, 0),
                ).len(),
                request_book: add_requests(
                    old(self)@.request_book.remove(d@.request_id),
                    bucket@,
                    old(self)@.request_count,
                    unknown_addresses(knownv, full.subrange(0, 0)).len(),
                ),
                ..old(self)@
            }));
        }
        let mut i: usize = 0;
        while i < d.entry_address_list.len()
            invariant
                i <= full.len(),
                full == d@.entry_address_list,
                t == serve_publishing_entry_list_result(old(self)@, d@),
                old(self)@.request_book.contains_key(d@.request_id),
                bucket@ == old(self)@.request_book[d@.request_id],
                knownv == book_list(old(self)@.published_entry_book, bucket@),
                known.deep_view() == knownv,
                old(self)@.request_count + full.len() <= u64::MAX,
                self@ == (ServerView {
                    request_count: old(self)@.request_count + unknown_addresses(
                        knownv,
                        full.subrange(0, i as int),
                    ).len(),
                    request_book: add_requests(
                        old(self)@.request_book.remove(d@.request_id),
                        bucket@,
                        old(self)@.request_count,
                        unknown_addresses(knownv, full.subrange(0, i as int)).len(),
                    ),
                    ..old(self)@
                }),
                old(self)@.senders.contains_key(bucket@) ==> effects_view(out@) == effects_view(
                    old(out)@,
                ) + fetch_entry_request_effects(
                    old(self)@.senders[bucket@],
                    d@.dna_address,
                    old(self)@.request_count,
                    unknown_addresses(knownv, full.subrange(0, i as int)),
                ),
                !old(self)@.senders.contains_key(bucket@) ==> unknown_addresses(
                    knownv,
                    full.subrange(0, i as int),
                ).len() == 0 && out@ == old(out)@,
            decreases full.len() - i,
        {
            let ghost sel_pre = unknown_addresses(knownv, full.subrange(0, i as int));
            proof {
                assert(full.subrange(0, i + 1).drop_last() =~= full.subrange(0, i as int));
                assert(full.subrange(0, i + 1).last() == full[i as int]);
                lemma_unknown_addresses_len(knownv, full.subrange(0, i as int));
            }
            let addr = &d.entry_address_list[i];
            proof {
                assert(addr@ == full[i as int]);
            }
            if bytes_list_contains(&known, addr) {
                proof {
                    assert(unknown_addresses(knownv, full.subrange(0, i + 1)) == sel_pre);
                }
                i = i + 1;
            } else {
                let ghost sel_post = unknown_addresses(knownv, full.subrange(0, i + 1));
                proof {
                    assert(sel_post == sel_pre.push(full[i as int]));
                }
                let rid = self.create_request(&bucket);
                let msg = ProtocolMessage::HandleFetchEntry(
                    FetchEntryData {
                        dna_address: clone_bytes(&d.dna_address),
                        requester_agent_id: Vec::new(),
                        request_id: rid,
                        entry_address: clone_bytes(addr),
                    },
                );
                match self.unicast(&bucket, msg, out) {
                    Ok(_) => {
                        proof {
                            assert(effects_view(out@) =~= effects_view(old(out)@)
                                + fetch_entry_request_effects(
                                old(self)@.senders[bucket@],
                                d@.dna_address,
                                old(self)@.request_count,
                                sel_post,
                            ));
                            assert(self@ =~= (ServerView {
                                request_count: old(self)@.request_count + sel_post.len(),
                                request_book: add_requests(
                                    old(self)@.request_book.remove(d@.request_id),
                                    bucket@,
                                    old(self)@.request_count,
                                    sel_post.len(),
                                ),
                                ..old(self)@
                            }));
                        }
                        i = i + 1;
                    }
                    Err(e) => {
                        proof {
                            lemma_unknown_addresses_nonempty(knownv, full, i as int);
                            assert(self@ =~= t.server);
                            assert(effects_view(out@) =~= effects_view(old(out)@) + t.effects);
                        }
                        return Err(e);
                    }
                }
            }
        }
        proof {
            assert(full.subrange(0, full.len() as int) =~= full);
            assert(self@ =~= t.server);
            assert(effects_view(out@) =~= effects_view(old(out)@) + t.effects);
        }
        Ok(())
    }

    /// An agent answered the request for its holding list: record every
    /// advertised address not already recorded.  Nothing is emitted.
    fn priv_serve_holding_entry_list_result(
        &mut self,
        d: EntryListData,
        out: &mut Vec<Effect>,
    ) -> (r: Result<(), NetError>)
        ensures
            matches_transition(
                final(self)@,
                old(out)@,
                final(out)@,
                r,
                serve_holding_entry_list_result(old(self)@, d@),
            ),
    {
        let ghost t = serve_holding_entry_list_result(old(self)@, d@);
        let bucket = match self.request_book.remove(&d.request_id) {
            None => {
                proof {
                    assert(self@.request_book =~= old(self)@.request_book);
                    assert(self@ =~= old(self)@);
                    assert(effects_view(out@) =~= effects_view(out@) + t.effects);
                }
                return Err(NetError::UnknownRequestId);
            }
            Some(b) => b,
        };
        let ghost full = d@.entry_address_list;
        proof {
            assert(full.subrange(0, full.len() as int) =~= full);
            assert(self@ =~= (ServerView {
                request_book: old(self)@.request_book.remove(d@.request_id),
                stored_entry_book: self@.stored_entry_book,
                ..old(self)@
            }));
        }
        let mut i: usize = 0;
        while i < d.entry_address_list.len()
            invariant
                i <= full.len(),
                full == d@.entry_address_list,
                old(self)@.request_book.contains_key(d@.request_id),
                bucket@ == old(self)@.request_book[d@.request_id],
                store_new_addresses(old(self)@.stored_entry_book, bucket@, full)
                    == store_new_addresses(
                    self@.stored_entry_book,
                    bucket@,
                    full.subrange(i as int, full.len() as int),
                ),
                self@ == (ServerView {
                    request_book: old(self)@.request_book.remove(d@.request_id),
                    stored_entry_book: self@.stored_entry_book,
                    ..old(self)@
                }),
                out@ == old(out)@,
            decreases full.len() - i,
        {
            let ghost remaining = full.subrange(i as int, full.len() as int);
            proof {
                assert(remaining[0] == full[i as int]);
                assert(remaining.drop_first() =~= full.subrange(i + 1, full.len() as int));
            }
            let addr = &d.entry_address_list[i];
            proof {
                assert(addr@ == full[i as int]);
            }
            if !book_contains_address(&self.stored_entry_book, &bucket, addr) {
                bookkeep_address(&mut self.stored_entry_book, &bucket, addr);
            }
            proof {
                assert(self@ == (ServerView {
                    request_book: old(self)@.request_book.remove(d@.request_id),
                    stored_entry_book: self@.stored_entry_book,
                    ..old(self)@
                }));
            }
            i = i + 1;
        }
        proof {
            assert(full.subrange(full.len() as int, full.len() as int) =~= Seq::<Seq<u8>>::empty());
            assert(self@ =~= t.server);
            assert(effects_view(out@) =~= effects_view(old(out)@) + t.effects);
        }
        Ok(())
    }

    /// An agent answered the request for its publishing meta list: unicast an
    /// internal metadata fetch for every advertised pair whose data address
    /// is not already in its published meta book.
    fn priv_serve_publishing_meta_list_result(
        &mut self,
        d: MetaListData,
        out: &mut Vec<Effect>,
    ) -> (r: Result<(), NetError>)
        requires
            old(self)@.request_count + d@.meta_list.len() <= u64::MAX,
        ensures
            matches_transition(
                final(self)@,
                old(out)@,
                final(out)@,
                r,
                serve_publishing_meta_list_result(old(self)@, d@),
            ),
    {
        let ghost t = serve_publishing_meta_list_result(old(self)@, d@);
        let bucket = match self.request_book.remove(&d.request_id) {
            None => {
                proof {
                    assert(self@.request_book =~= old(self)@.request_book);
                    assert(self@ =~= old(self)@);
                    assert(effects_view(out@) =~= effects_view(out@) + t.effects);
                }
                return Err(NetError::UnknownRequestId);
            }
            Some(b) => b,
        };
        let known: Vec<Vec<u8>> = match self.published_meta_book.get(&bucket) {
            Some(l) => clone_bytes_list(l),
            None => Vec::new(),
        };
        let ghost knownv = book_list(old(self)@.published_meta_book, bucket@);
        let ghost full = d@.meta_list;
        proof {
            assert(known.deep_view() =~= knownv);
            assert(full.subrange(0, 0) =~= Seq::<(Seq<u8>, Seq<u8>)>::empty());
            assert(effects_view(out@) =~= effects_view(old(out)@) + fetch_meta_request_effects(
                old(self)@.senders[bucket@],
                d@.dna_address,
                old(self)@.request_count,
                unknown_meta_pairs(knownv, full.subrange(0, 0)),
            ));
            assert(self@ =~= (ServerView {
                request_count: old(self)@.request_count + unknown_meta_pairs(
                    knownv,
                    full.subrange(0, 0),
                ).len(),
                request_book: add_requests(
                    old(self)@.request_book.remove(d@.request_id),
                    bucket@,
                    old(self)@.request_count,
                    unknown_meta_pairs(knownv, full.subrange(0, 0)).len(),
                ),
                ..old(self)@
            }));
        }
        let mut i: usize = 0;
        while i < d.meta_list.len()
            invariant
                i <= full.len(),
                full == d@.meta_list,
                t == serve_publishing_meta_list_result(old(self)@, d@),
                old(self)@.request_book.contains_key(d@.request_id),
                bucket@ == old(self)@.request_book[d@.request_id],
                knownv == book_list(old(self)@.published_meta_book, bucket@),
                known.deep_view() == knownv,
                old(self)@.request_count + full.len() <= u64::MAX,
                self@ == (ServerView {
                    request_count: old(self)@.request_count + unknown_meta_pairs(
                        knownv,
                        full.subrange(0, i as int),
                    ).len(),
                    request_book: add_requests(
                        old(self)@.request_book.remove(d@.request_id),
                        bucket@,
                        old(self)@.request_count,
                        unknown_meta_pairs(knownv, full.subrange(0, i as int)).len(),
                    ),
                    ..old(self)@
                }),
                old(self)@.senders.contains_key(bucket@) ==> effects_view(out@) == effects_view(
                    old(out)@,
                ) + fetch_meta_request_effects(
                    old(self)@.senders[bucket@],
                    d@.dna_address,
                    old(self)@.request_count,
                    unknown_meta_pairs(knownv, full.subrange(0, i as int)),
                ),
                !old(self)@.senders.contains_key(bucket@) ==> unknown_meta_pairs(
                    knownv,
                    full.subrange(0, i as int),
                ).len() == 0 && out@ == old(out)@,
            decreases full.len() - i,
        {
            let ghost sel_pre = unknown_meta_pairs(knownv, full.subrange(0, i as int));
            proof {
                assert(full.subrange(0, i + 1).drop_last() =~= full.subrange(0, i as int));
                assert(full.subrange(0, i + 1).last() == full[i as int]);
                lemma_unknown_meta_pairs_len(knownv, full.subrange(0, i as int));
            }
            let pair = &d.meta_list[i];
            proof {
                assert(pair.0@ == full[i as int].0);
                assert(pair.1@ == full[i as int].1);
            }
            if bytes_list_contains(&known, &pair.0) {
                proof {
                    assert(unknown_meta_pairs(knownv, full.subrange(0, i + 1)) == sel_pre);
                }
                i = i + 1;
            } else {
                let ghost sel_post = unknown_meta_pairs(knownv, full.subrange(0, i + 1));
                proof {
                    assert(sel_post == sel_pre.push(full[i as int]));
                }
                let rid = self.create_request(&bucket);
                let msg = ProtocolMessage::HandleFetchMeta(
                    FetchMetaData {
                        dna_address: clone_bytes(&d.dna_address),
                        requester_agent_id: Vec::new(),
                        request_id: rid,
                        entry_address: clone_bytes(&pair.0),
                        attribute: clone_bytes(&pair.1),
                    },
                );
                match self.unicast(&bucket, msg, out) {
                    Ok(_) => {
                        proof {
                            assert(effects_view(out@) =~= effects_view(old(out)@)
                                + fetch_meta_request_effects(
                                old(self)@.senders[bucket@],
                                d@.dna_address,
                                old(self)@.request_count,
                                sel_post,
                            ));
                            assert(self@ =~= (ServerView {
                                request_count: old(self)@.request_count + sel_post.len(),
                                request_book: add_requests(
                                    old(self)@.request_book.remove(d@.request_id),
                                    bucket@,
                                    old(self)@.request_count,
                                    sel_post.len(),
                                ),
                                ..old(self)@
                            }));
                        }
                        i = i + 1;
                    }
                    Err(e) => {
                        proof {
                            lemma_unknown_meta_pairs_nonempty(knownv, full, i as int);
                            assert(self@ =~= t.server);
                            assert(effects_view(out@) =~= effects_view(old(out)@) + t.effects);
                        }
                        return Err(e);
                    }
                }
            }
        }
        proof {
            assert(full.subrange(0, full.len() as int) =~= full);
            assert(self@ =~= t.server);
            assert(effects_view(out@) =~= effects_view(old(out)@) + t.effects);
        }
        Ok(())
    }

    /// An agent answered the request for its holding meta list: record the
    /// meta address of every advertised pair not already recorded.
    fn priv_serve_holding_meta_list_result(
        &mut self,
        d: MetaListData,
        out: &mut Vec<Effect>,
    ) -> (r: Result<(), NetError>)
        ensures
            matches_transition(
                final(self)@,
                old(out)@,
                final(out)@,
                r,
                serve_holding_meta_list_result(old(self)@, d@),
            ),
    {
        let ghost t = serve_holding_meta_list_result(old(self)@, d@);
        let bucket = match self.request_book.remove(&d.request_id) {
            None => {
                proof {
                    assert(self@.request_book =~= old(self)@.request_book);
                    assert(self@ =~= old(self)@);
                    assert(effects_view(out@) =~= effects_view(out@) + t.effects);
                }
                return Err(NetError::UnknownRequestId);
            }
            Some(b) => b,
        };
        let ghost full = d@.meta_list;
        proof {
            assert(full.subrange(0, full.len() as int) =~= full);
            assert(self@ =~= (ServerView {
                request_book: old(self)@.request_book.remove(d@.request_id),
                stored_meta_book: self@.stored_meta_book,
                ..old(self)@
            }));
        }
        let mut i: usize = 0;
        while i < d.meta_list.len()
            invariant
                i <= full.len(),
                full == d@.meta_list,
                old(self)@.request_book.contains_key(d@.request_id),
                bucket@ == old(self)@.request_book[d@.request_id],
                store_new_meta(old(self)@.stored_meta_book, bucket@, full) == store_new_meta(
                    self@.stored_meta_book,
                    bucket@,
                    full.subrange(i as int, full.len() as int),
                ),
                self@ == (ServerView {
                    request_book: old(self)@.request_book.remove(d@.request_id),
                    stored_meta_book: self@.stored_meta_book,
                    ..old(self)@
                }),
                out@ == old(out)@,
            decreases full.len() - i,
        {
            let ghost remaining = full.subrange(i as int, full.len() as int);
            proof {
                assert(remaining[0] == full[i as int]);
                assert(remaining.drop_first() =~= full.subrange(i + 1, full.len() as int));
            }
            let pair = &d.meta_list[i];
            let meta = meta_to_address(&pair.0, &pair.1);
            proof {
                assert(pair.0@ == full[i as int].0);
                assert(pair.1@ == full[i as int].1);
            }
            if !book_contains_address(&self.stored_meta_book, &bucket, &meta) {
                bookkeep_address(&mut self.stored_meta_book, &bucket, &meta);
            }
            proof {
                assert(self@ == (ServerView {
                    request_book: old(self)@.request_book.remove(d@.request_id),
                    stored_meta_book: self@.stored_meta_book,
                    ..old(self)@
                }));
            }
            i = i + 1;
        }
        proof {
            assert(full.subrange(full.len() as int, full.len() as int) =~= Seq::<
                (Seq<u8>, Seq<u8>),
            >::empty());
            assert(self@ =~= t.server);
            assert(effects_view(out@) =~= effects_view(old(out)@) + t.effects);
        }
        Ok(())
    }

    /// Process a message a node submitted to the network: mutate the server's
    /// bookkeeping and append to `out` the messages to deliver, in order.  On
    /// an error, the bookkeeping done and the messages emitted before the
    /// failing send are kept, as [`spec_serve`] prescribes.
    pub fn serve(&mut self, msg: ProtocolMessage, out: &mut Vec<Effect>) -> (r: Result<
        (),
        NetError,
    >)
        requires
            old(self)@.request_count + mint_budget(msg@) <= u64::MAX,
        ensures
            matches_transition(final(self)@, old(out)@, final(out)@, r, spec_serve(
                old(self)@,
                msg@,
            )),
    {
        match msg {
            ProtocolMessage::SuccessResult(d) => self.priv_serve_success_result(d, out),
            ProtocolMessage::FailureResult(d) => self.priv_serve_failure_result(d, out),
            ProtocolMessage::TrackDna(d) => self.priv_serve_track_dna(d, out),
            ProtocolMessage::SendMessage(d) => self.priv_serve_send_message(d, out),
            ProtocolMessage::HandleSendMessageResult(d) => self.priv_serve_handle_send_message_result(
                d,
                out,
            ),
            ProtocolMessage::PublishEntry(d) => self.priv_publish_entry(d, out),
            ProtocolMessage::FetchEntry(d) => self.priv_serve_fetch_entry(d, out),
            ProtocolMessage::HandleFetchEntryResult(d) => self.priv_serve_handle_fetch_entry_result(
                d,
                out,
            ),
            ProtocolMessage::PublishMeta(d) => self.priv_publish_meta(d, out),
            ProtocolMessage::FetchMeta(d) => self.priv_serve_fetch_meta(d, out),
            ProtocolMessage::HandleFetchMetaResult(d) => self.priv_serve_handle_fetch_meta_result(
                d,
                out,
            ),
            ProtocolMessage::HandleGetPublishingEntryListResult(d) => self.priv_serve_publishing_entry_list_result(
                d,
                out,
            ),
            ProtocolMessage::HandleGetHoldingEntryListResult(d) => self.priv_serve_holding_entry_list_result(
                d,
                out,
            ),
            ProtocolMessage::HandleGetPublishingMetaListResult(d) => self.priv_serve_publishing_meta_list_result(
                d,
                out,
            ),
            ProtocolMessage::HandleGetHoldingMetaListResult(d) => self.priv_serve_holding_meta_list_result(
                d,
                out,
            ),
            _ => {
                proof {
                    assert(effects_view(out@) =~= effects_view(out@) + Seq::<
                        crate::state::EffectView,
                    >::empty());
                }
                Ok(())
            }
        }
    }
}

} // verus!
