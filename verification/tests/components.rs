use memory_net::book::{AddressBook, book_contains_address, bookkeep_address, unbookkeep_address};
use memory_net::ids::{bytes_eq, cat_dna_agent, format_request_id, meta_to_address};
use memory_net::registry::ServerRegistry;
use memory_net::server::Effect;
use memory_net::protocol::{ProtocolMessage, ResultData, TrackDnaData};

fn bv(s: &str) -> Vec<u8> {
    s.as_bytes().to_vec()
}

#[test]
fn bucket_and_meta_identifiers() {
    assert_eq!(cat_dna_agent(&bv("dna-aa"), &bv("a1")), bv("dna-aa::a1"));
    assert_eq!(cat_dna_agent(&bv(""), &bv("a1")), bv("::a1"));
    assert_eq!(meta_to_address(&bv("entry-e1"), &bv("tag")), bv("entry-e1||tag"));
    assert_eq!(meta_to_address(&bv("d"), &bv("")), bv("d||"));
}

#[test]
fn request_id_formatting() {
    assert_eq!(format_request_id(1), bv("req_1"));
    assert_eq!(format_request_id(7), bv("req_7"));
    assert_eq!(format_request_id(10), bv("req_10"));
    assert_eq!(format_request_id(120), bv("req_120"));
    assert_eq!(format_request_id(10_000), bv("req_10000"));
}

#[test]
fn byte_string_equality() {
    assert!(bytes_eq(&bv("abc"), &bv("abc")));
    assert!(!bytes_eq(&bv("abc"), &bv("abd")));
    assert!(!bytes_eq(&bv("abc"), &bv("ab")));
    assert!(bytes_eq(&bv(""), &bv("")));
}

#[test]
fn bookkeeping_appends_in_order() {
    let mut book: AddressBook = AddressBook::new();
    let bucket = bv("dna-aa::a1");
    bookkeep_address(&mut book, &bucket, &bv("e1"));
    bookkeep_address(&mut book, &bucket, &bv("e2"));
    bookkeep_address(&mut book, &bucket, &bv("e1"));
    let list = book.get(&bucket).unwrap();
    assert_eq!(list, &vec![bv("e1"), bv("e2"), bv("e1")]);
    assert!(book_contains_address(&book, &bucket, &bv("e2")));
    assert!(!book_contains_address(&book, &bucket, &bv("e3")));
    assert!(!book_contains_address(&book, &bv("other"), &bv("e1")));
}

#[test]
fn unbookkeeping_removes_first_occurrence() {
    let mut book: AddressBook = AddressBook::new();
    let bucket = bv("dna-aa::a1");
    bookkeep_address(&mut book, &bucket, &bv("e1"));
    bookkeep_address(&mut book, &bucket, &bv("e2"));
    bookkeep_address(&mut book, &bucket, &bv("e1"));
    assert!(unbookkeep_address(&mut book, &bucket, &bv("e1")));
    assert_eq!(book.get(&bucket).unwrap(), &vec![bv("e2"), bv("e1")]);
    assert!(unbookkeep_address(&mut book, &bucket, &bv("e1")));
    assert!(!unbookkeep_address(&mut book, &bucket, &bv("e1")));
    assert!(!unbookkeep_address(&mut book, &bv("absent"), &bv("e1")));
}

#[test]
fn registry_creates_lazily_and_reuses() {
    let mut reg = ServerRegistry::new();
    assert_eq!(reg.len(), 0);
    assert!(reg.lookup(&bv("alpha")).is_none());
    let h1 = reg.get_or_create(&bv("alpha"));
    let h2 = reg.get_or_create(&bv("beta"));
    let h3 = reg.get_or_create(&bv("alpha"));
    assert_eq!(h1, h3);
    assert_ne!(h1, h2);
    assert_eq!(reg.len(), 2);
    assert_eq!(reg.lookup(&bv("alpha")), Some(h1));
    assert_eq!(reg.server(h2).name(), &bv("beta"));
}

#[test]
fn registry_servers_are_independent() {
    let mut reg = ServerRegistry::new();
    let ha = reg.get_or_create(&bv("alpha"));
    let hb = reg.get_or_create(&bv("beta"));
    {
        let srv = reg.server_mut(ha);
        srv.clock_in();
        srv.register(&bv("dna-aa"), &bv("a1"), 1).unwrap();
        let mut out: Vec<Effect> = Vec::new();
        srv.serve(
            ProtocolMessage::TrackDna(TrackDnaData {
                dna_address: bv("dna-aa"),
                agent_id: bv("a1"),
            }),
            &mut out,
        )
        .unwrap();
        assert_eq!(out.len(), 5);
    }
    // the other universe knows nothing of alpha's agents
    let srv_b = reg.server_mut(hb);
    srv_b.clock_in();
    let mut out: Vec<Effect> = Vec::new();
    let r = srv_b.serve(
        ProtocolMessage::SuccessResult(ResultData {
            dna_address: bv("dna-aa"),
            request_id: bv("r-1"),
            to_agent_id: bv("a1"),
            result_info: bv("ok"),
        }),
        &mut out,
    );
    assert!(r.is_err());
    assert_eq!(out.len(), 0);
}
