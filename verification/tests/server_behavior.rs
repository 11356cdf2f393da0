use memory_net::protocol::{
    DhtMetaData, EntryData, EntryListData, FailureResultData, FetchEntryData,
    FetchEntryResultData, FetchMetaData, MetaListData, ProtocolMessage, ResultData, TrackDnaData,
};
use memory_net::server::{Effect, InMemoryServer};
use memory_net::state::NetError;

fn bv(s: &str) -> Vec<u8> {
    s.as_bytes().to_vec()
}

fn track(dna: &str, agent: &str) -> ProtocolMessage {
    ProtocolMessage::TrackDna(TrackDnaData { dna_address: bv(dna), agent_id: bv(agent) })
}

/// A server with one registered, tracked agent; its handshake effects are
/// discarded.  The request counter stands at 4 afterwards.
fn tracked_server(dna: &str, agent: &str, sink: u64) -> InMemoryServer {
    let mut srv = InMemoryServer::new(bv("net"));
    srv.clock_in();
    srv.register(&bv(dna), &bv(agent), sink).unwrap();
    let mut out: Vec<Effect> = Vec::new();
    srv.serve(track(dna, agent), &mut out).unwrap();
    assert_eq!(out.len(), 5);
    srv
}

#[test]
fn track_handshake_order() {
    let mut srv = InMemoryServer::new(bv("net"));
    assert_eq!(srv.name(), &bv("net"));
    srv.clock_in();
    srv.register(&bv("dna-aa"), &bv("a1"), 1).unwrap();
    let mut out: Vec<Effect> = Vec::new();
    srv.serve(track("dna-aa", "a1"), &mut out).unwrap();
    assert_eq!(out.len(), 5);
    for e in &out {
        assert_eq!(e.target, 1);
    }
    match &out[0].message {
        ProtocolMessage::PeerConnected(p) => assert_eq!(p.agent_id, bv("a1")),
        _ => panic!("expected PeerConnected first"),
    }
    match &out[1].message {
        ProtocolMessage::HandleGetPublishingEntryList(g) => {
            assert_eq!(g.dna_address, bv("dna-aa"));
            assert_eq!(g.request_id, bv("req_1"));
        }
        _ => panic!("expected HandleGetPublishingEntryList second"),
    }
    match &out[2].message {
        ProtocolMessage::HandleGetHoldingEntryList(g) => assert_eq!(g.request_id, bv("req_2")),
        _ => panic!("expected HandleGetHoldingEntryList third"),
    }
    match &out[3].message {
        ProtocolMessage::HandleGetPublishingMetaList(g) => assert_eq!(g.request_id, bv("req_3")),
        _ => panic!("expected HandleGetPublishingMetaList fourth"),
    }
    match &out[4].message {
        ProtocolMessage::HandleGetHoldingMetaList(g) => assert_eq!(g.request_id, bv("req_4")),
        _ => panic!("expected HandleGetHoldingMetaList fifth"),
    }
}

#[test]
fn track_is_idempotent() {
    let mut srv = tracked_server("dna-aa", "a1", 1);
    let mut out: Vec<Effect> = Vec::new();
    let r = srv.serve(track("dna-aa", "a1"), &mut out);
    assert!(r.is_ok());
    assert_eq!(out.len(), 0);
}

#[test]
fn track_unregistered_agent_fails_after_peer_connected() {
    let mut srv = InMemoryServer::new(bv("net"));
    srv.clock_in();
    let mut out: Vec<Effect> = Vec::new();
    let r = srv.serve(track("dna-aa", "ghost"), &mut out);
    assert_eq!(r, Err(NetError::NoRoute));
    // no sink on the DNA at all, so even the multicast reached nobody
    assert_eq!(out.len(), 0);
}

#[test]
fn publish_entry_fans_out_to_all_sinks() {
    let mut srv = tracked_server("dna-aa", "a1", 1);
    srv.register(&bv("dna-aa"), &bv("a2"), 2).unwrap();
    let mut out: Vec<Effect> = Vec::new();
    let publish = ProtocolMessage::PublishEntry(EntryData {
        dna_address: bv("dna-aa"),
        provider_agent_id: bv("a1"),
        entry_address: bv("entry-e1"),
        entry_content: bv("hi"),
    });
    srv.serve(publish, &mut out).unwrap();
    assert_eq!(out.len(), 2);
    assert_eq!(out[0].target, 1);
    assert_eq!(out[1].target, 2);
    for e in &out {
        match &e.message {
            ProtocolMessage::HandleStoreEntry(s) => {
                assert_eq!(s.dna_address, bv("dna-aa"));
                assert_eq!(s.provider_agent_id, bv("a1"));
                assert_eq!(s.entry_address, bv("entry-e1"));
                assert_eq!(s.entry_content, bv("hi"));
            }
            _ => panic!("expected HandleStoreEntry"),
        }
    }
}

#[test]
fn reregistration_duplicates_multicast_slot() {
    let mut srv = InMemoryServer::new(bv("net"));
    srv.clock_in();
    srv.register(&bv("dna-dd"), &bv("x"), 1).unwrap();
    srv.register(&bv("dna-dd"), &bv("x"), 2).unwrap();
    let mut out: Vec<Effect> = Vec::new();
    let publish = ProtocolMessage::PublishEntry(EntryData {
        dna_address: bv("dna-dd"),
        provider_agent_id: bv("x"),
        entry_address: bv("e"),
        entry_content: bv("c"),
    });
    srv.serve(publish, &mut out).unwrap();
    // the bucket entry was overwritten, but the multicast list keeps both slots
    assert_eq!(out.len(), 2);
    assert_eq!(out[0].target, 1);
    assert_eq!(out[1].target, 2);
}

#[test]
fn fetch_entry_goes_to_first_sink() {
    let mut srv = tracked_server("dna-aa", "a1", 1);
    srv.register(&bv("dna-aa"), &bv("a2"), 2).unwrap();
    let mut out: Vec<Effect> = Vec::new();
    let fetch = ProtocolMessage::FetchEntry(FetchEntryData {
        dna_address: bv("dna-aa"),
        requester_agent_id: bv("a2"),
        request_id: bv("r-1"),
        entry_address: bv("entry-e1"),
    });
    srv.serve(fetch, &mut out).unwrap();
    assert_eq!(out.len(), 1);
    assert_eq!(out[0].target, 1);
    match &out[0].message {
        ProtocolMessage::HandleFetchEntry(f) => {
            assert_eq!(f.request_id, bv("r-1"));
            assert_eq!(f.requester_agent_id, bv("a2"));
        }
        _ => panic!("expected HandleFetchEntry"),
    }
}

#[test]
fn fetch_entry_with_no_peers_fails() {
    let mut srv = InMemoryServer::new(bv("net"));
    srv.clock_in();
    srv.register(&bv("dna-bb"), &bv("a1"), 7).unwrap();
    srv.clock_out();
    srv.clock_in();
    let mut out: Vec<Effect> = Vec::new();
    let fetch = ProtocolMessage::FetchEntry(FetchEntryData {
        dna_address: bv("dna-bb"),
        requester_agent_id: bv("a1"),
        request_id: bv("r-x"),
        entry_address: bv("entry-e2"),
    });
    // the tables were cleared at clock-out, so neither the fetch nor the
    // fabricated FailureResult finds a route
    let r = srv.serve(fetch, &mut out);
    assert_eq!(r, Err(NetError::NoRoute));
    assert_eq!(out.len(), 0);
}

#[test]
fn reconciliation_triggers_internal_fetch_and_publish() {
    let mut srv = tracked_server("dna-cc", "a1", 1);
    // answer the publishing-list request req_1 with two unknown entries
    let mut out: Vec<Effect> = Vec::new();
    let listing = ProtocolMessage::HandleGetPublishingEntryListResult(EntryListData {
        dna_address: bv("dna-cc"),
        request_id: bv("req_1"),
        entry_address_list: vec![bv("entry-e1"), bv("entry-e2")],
    });
    srv.serve(listing, &mut out).unwrap();
    assert_eq!(out.len(), 2);
    let mut seen: Vec<Vec<u8>> = Vec::new();
    for (e, addr) in out.iter().zip(["entry-e1", "entry-e2"]) {
        assert_eq!(e.target, 1);
        match &e.message {
            ProtocolMessage::HandleFetchEntry(f) => {
                assert_eq!(f.dna_address, bv("dna-cc"));
                assert_eq!(f.entry_address, bv(addr));
                assert_eq!(f.requester_agent_id, bv(""));
                seen.push(f.request_id.clone());
            }
            _ => panic!("expected HandleFetchEntry"),
        }
    }
    assert_eq!(seen, vec![bv("req_5"), bv("req_6")]);
    // answer one internal fetch: the server publishes the entry itself
    let mut out2: Vec<Effect> = Vec::new();
    let result = ProtocolMessage::HandleFetchEntryResult(FetchEntryResultData {
        dna_address: bv("dna-cc"),
        requester_agent_id: bv(""),
        request_id: bv("req_5"),
        provider_agent_id: bv("a1"),
        entry_address: bv("entry-e1"),
        entry_content: bv("payload"),
    });
    srv.serve(result, &mut out2).unwrap();
    assert_eq!(out2.len(), 1);
    assert_eq!(out2[0].target, 1);
    match &out2[0].message {
        ProtocolMessage::HandleStoreEntry(s) => {
            assert_eq!(s.entry_address, bv("entry-e1"));
            assert_eq!(s.entry_content, bv("payload"));
        }
        _ => panic!("expected HandleStoreEntry"),
    }
    // the matched request id has left the ledger: a repeat is treated as an
    // external result and relayed to its (absent) requester
    let mut out3: Vec<Effect> = Vec::new();
    let repeat = ProtocolMessage::HandleFetchEntryResult(FetchEntryResultData {
        dna_address: bv("dna-cc"),
        requester_agent_id: bv(""),
        request_id: bv("req_5"),
        provider_agent_id: bv("a1"),
        entry_address: bv("entry-e1"),
        entry_content: bv("payload"),
    });
    let r = srv.serve(repeat, &mut out3);
    assert_eq!(r, Err(NetError::NoRoute));
    assert_eq!(out3.len(), 0);
}

#[test]
fn known_published_entries_are_not_refetched() {
    let mut srv = tracked_server("dna-cc", "a1", 1);
    // a1 publishes entry-e1 itself
    let mut out: Vec<Effect> = Vec::new();
    let publish = ProtocolMessage::PublishEntry(EntryData {
        dna_address: bv("dna-cc"),
        provider_agent_id: bv("a1"),
        entry_address: bv("entry-e1"),
        entry_content: bv("hi"),
    });
    srv.serve(publish, &mut out).unwrap();
    // the listing advertises e1 (already published) and e2 (unknown)
    let mut out2: Vec<Effect> = Vec::new();
    let listing = ProtocolMessage::HandleGetPublishingEntryListResult(EntryListData {
        dna_address: bv("dna-cc"),
        request_id: bv("req_1"),
        entry_address_list: vec![bv("entry-e1"), bv("entry-e2")],
    });
    srv.serve(listing, &mut out2).unwrap();
    assert_eq!(out2.len(), 1);
    match &out2[0].message {
        ProtocolMessage::HandleFetchEntry(f) => assert_eq!(f.entry_address, bv("entry-e2")),
        _ => panic!("expected HandleFetchEntry"),
    }
}

#[test]
fn failure_to_internal_request_is_swallowed() {
    let mut srv = tracked_server("dna-cc", "a1", 1);
    let mut out: Vec<Effect> = Vec::new();
    let failure = ProtocolMessage::FailureResult(FailureResultData {
        dna_address: bv("dna-cc"),
        request_id: bv("req_2"),
        to_agent_id: bv("a1"),
        error_info: bv("agent broke"),
    });
    let r = srv.serve(failure, &mut out);
    assert!(r.is_ok());
    assert_eq!(out.len(), 0);
    // req_2 has left the ledger: the same failure now relays to its addressee
    let mut out2: Vec<Effect> = Vec::new();
    let failure2 = ProtocolMessage::FailureResult(FailureResultData {
        dna_address: bv("dna-cc"),
        request_id: bv("req_2"),
        to_agent_id: bv("a1"),
        error_info: bv("agent broke"),
    });
    srv.serve(failure2, &mut out2).unwrap();
    assert_eq!(out2.len(), 1);
    assert_eq!(out2[0].target, 1);
    assert!(matches!(out2[0].message, ProtocolMessage::FailureResult(_)));
}

#[test]
fn clock_out_to_zero_clears_routing() {
    let mut srv = InMemoryServer::new(bv("net"));
    srv.clock_in();
    srv.clock_in();
    srv.register(&bv("dna-aa"), &bv("a1"), 1).unwrap();
    let success = |req: &str| {
        ProtocolMessage::SuccessResult(ResultData {
            dna_address: bv("dna-aa"),
            request_id: bv(req),
            to_agent_id: bv("a1"),
            result_info: bv("ok"),
        })
    };
    // with one client gone the tables survive
    srv.clock_out();
    let mut out: Vec<Effect> = Vec::new();
    srv.serve(success("r-1"), &mut out).unwrap();
    assert_eq!(out.len(), 1);
    assert!(matches!(out[0].message, ProtocolMessage::SuccessResult(_)));
    // with the last client gone they are cleared
    srv.clock_out();
    let mut out2: Vec<Effect> = Vec::new();
    let r = srv.serve(success("r-2"), &mut out2);
    assert_eq!(r, Err(NetError::NoRoute));
    assert_eq!(out2.len(), 0);
}

#[test]
fn send_message_routing() {
    let mut srv = InMemoryServer::new(bv("net"));
    srv.clock_in();
    srv.register(&bv("dna-aa"), &bv("a1"), 1).unwrap();
    srv.register(&bv("dna-aa"), &bv("a2"), 2).unwrap();
    let mut out: Vec<Effect> = Vec::new();
    let msg = ProtocolMessage::SendMessage(memory_net::protocol::MessageData {
        dna_address: bv("dna-aa"),
        to_agent_id: bv("a2"),
        from_agent_id: bv("a1"),
        content: bv("hello"),
    });
    srv.serve(msg, &mut out).unwrap();
    assert_eq!(out.len(), 1);
    assert_eq!(out[0].target, 2);
    match &out[0].message {
        ProtocolMessage::HandleSendMessage(m) => assert_eq!(m.content, bv("hello")),
        _ => panic!("expected HandleSendMessage"),
    }
    let mut out2: Vec<Effect> = Vec::new();
    let reply = ProtocolMessage::HandleSendMessageResult(memory_net::protocol::MessageData {
        dna_address: bv("dna-aa"),
        to_agent_id: bv("a1"),
        from_agent_id: bv("a2"),
        content: bv("answer"),
    });
    srv.serve(reply, &mut out2).unwrap();
    assert_eq!(out2.len(), 1);
    assert_eq!(out2[0].target, 1);
    assert!(matches!(out2[0].message, ProtocolMessage::SendMessageResult(_)));
}

#[test]
fn publish_meta_fans_out_without_bookkeeping() {
    let mut srv = tracked_server("dna-aa", "a1", 1);
    let mut out: Vec<Effect> = Vec::new();
    let publish = ProtocolMessage::PublishMeta(DhtMetaData {
        dna_address: bv("dna-aa"),
        provider_agent_id: bv("a1"),
        entry_address: bv("entry-e1"),
        attribute: bv("tag"),
        content: bv("m"),
    });
    srv.serve(publish, &mut out).unwrap();
    assert_eq!(out.len(), 1);
    assert!(matches!(out[0].message, ProtocolMessage::HandleStoreMeta(_)));
    // the publish did not write the published meta book, so a meta listing
    // advertising the same data address still triggers a re-fetch
    let mut out2: Vec<Effect> = Vec::new();
    let listing = ProtocolMessage::HandleGetPublishingMetaListResult(MetaListData {
        dna_address: bv("dna-aa"),
        request_id: bv("req_3"),
        meta_list: vec![(bv("entry-e1"), bv("tag"))],
    });
    srv.serve(listing, &mut out2).unwrap();
    assert_eq!(out2.len(), 1);
    match &out2[0].message {
        ProtocolMessage::HandleFetchMeta(f) => {
            assert_eq!(f.entry_address, bv("entry-e1"));
            assert_eq!(f.attribute, bv("tag"));
            assert_eq!(f.request_id, bv("req_5"));
            assert_eq!(f.requester_agent_id, bv(""));
        }
        _ => panic!("expected HandleFetchMeta"),
    }
}

#[test]
fn fetch_meta_with_no_peers_fails() {
    let mut srv = InMemoryServer::new(bv("net"));
    srv.clock_in();
    let mut out: Vec<Effect> = Vec::new();
    let fetch = ProtocolMessage::FetchMeta(FetchMetaData {
        dna_address: bv("dna-zz"),
        requester_agent_id: bv("a1"),
        request_id: bv("r-m"),
        entry_address: bv("entry-e9"),
        attribute: bv("tag"),
    });
    let r = srv.serve(fetch, &mut out);
    assert_eq!(r, Err(NetError::NoRoute));
    assert_eq!(out.len(), 0);
}

#[test]
fn holding_lists_are_recorded_silently() {
    let mut srv = tracked_server("dna-aa", "a1", 1);
    let mut out: Vec<Effect> = Vec::new();
    let holding = ProtocolMessage::HandleGetHoldingEntryListResult(EntryListData {
        dna_address: bv("dna-aa"),
        request_id: bv("req_2"),
        entry_address_list: vec![bv("entry-e1"), bv("entry-e1"), bv("entry-e2")],
    });
    let r = srv.serve(holding, &mut out);
    assert!(r.is_ok());
    assert_eq!(out.len(), 0);
    let mut out2: Vec<Effect> = Vec::new();
    let meta_holding = ProtocolMessage::HandleGetHoldingMetaListResult(MetaListData {
        dna_address: bv("dna-aa"),
        request_id: bv("req_4"),
        meta_list: vec![(bv("entry-e1"), bv("tag"))],
    });
    let r2 = srv.serve(meta_holding, &mut out2);
    assert!(r2.is_ok());
    assert_eq!(out2.len(), 0);
}

#[test]
fn list_result_with_unknown_request_is_an_error() {
    let mut srv = tracked_server("dna-aa", "a1", 1);
    let mut out: Vec<Effect> = Vec::new();
    let listing = ProtocolMessage::HandleGetPublishingEntryListResult(EntryListData {
        dna_address: bv("dna-aa"),
        request_id: bv("nope"),
        entry_address_list: vec![bv("entry-e1")],
    });
    let r = srv.serve(listing, &mut out);
    assert_eq!(r, Err(NetError::UnknownRequestId));
    assert_eq!(out.len(), 0);
}

#[test]
fn unknown_frames_are_ignored() {
    let mut srv = InMemoryServer::new(bv("net"));
    srv.clock_in();
    let mut out: Vec<Effect> = Vec::new();
    let r = srv.serve(ProtocolMessage::Unknown, &mut out);
    assert!(r.is_ok());
    assert_eq!(out.len(), 0);
    // variants the server only ever emits are ignored on the inbound path
    let mut out2: Vec<Effect> = Vec::new();
    let inbound = ProtocolMessage::PeerConnected(memory_net::protocol::PeerData {
        agent_id: bv("a1"),
    });
    let r2 = srv.serve(inbound, &mut out2);
    assert!(r2.is_ok());
    assert_eq!(out2.len(), 0);
}

#[test]
fn request_ids_are_distinct_across_tracks() {
    let mut srv = InMemoryServer::new(bv("net"));
    srv.clock_in();
    srv.register(&bv("dna-aa"), &bv("a1"), 1).unwrap();
    srv.register(&bv("dna-aa"), &bv("a2"), 2).unwrap();
    let mut out: Vec<Effect> = Vec::new();
    srv.serve(track("dna-aa", "a1"), &mut out).unwrap();
    srv.serve(track("dna-aa", "a2"), &mut out).unwrap();
    let mut ids: Vec<Vec<u8>> = Vec::new();
    for e in &out {
        match &e.message {
            ProtocolMessage::HandleGetPublishingEntryList(g)
            | ProtocolMessage::HandleGetHoldingEntryList(g)
            | ProtocolMessage::HandleGetPublishingMetaList(g)
            | ProtocolMessage::HandleGetHoldingMetaList(g) => ids.push(g.request_id.clone()),
            _ => {}
        }
    }
    let expected: Vec<Vec<u8>> = (1..=8).map(|n| bv(&format!("req_{}", n))).collect();
    assert_eq!(ids, expected);
    for a in 0..ids.len() {
        for b in (a + 1)..ids.len() {
            assert_ne!(ids[a], ids[b]);
        }
    }
}
