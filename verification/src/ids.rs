//! Identifier primitives: opaque byte-string addresses, bucket identifiers,
//! meta addresses, and the server-local request identifiers `req_{n}`.

use vstd::prelude::*;

verus! {

/// The separator between the DNA address and the agent identifier in a
/// bucket identifier: the two bytes of `"::"`.
pub open spec fn bucket_sep() -> Seq<u8> {
    seq![58u8, 58u8]
}

/// The separator between a data address and an attribute in a meta address:
/// the two bytes of `"||"`.
pub open spec fn meta_sep() -> Seq<u8> {
    seq![124u8, 124u8]
}

/// The bucket identifier of an agent on a DNA: `dna ++ "::" ++ agent`.
pub open spec fn bucket_id_of(dna: Seq<u8>, agent: Seq<u8>) -> Seq<u8> {
    dna + bucket_sep() + agent
}

/// The address under which metadata attached to `data` is indexed:
/// `data ++ "||" ++ attribute`.
pub open spec fn meta_address_of(data: Seq<u8>, attribute: Seq<u8>) -> Seq<u8> {
    data + meta_sep() + attribute
}

/// A byte string's deep view is its view: both are the sequence of its bytes.
pub broadcast proof fn lemma_bytes_deep_view(v: Vec<u8>)
    ensures
        #[trigger] v.deep_view() == v@,
{
    assert(v.deep_view() =~= v@);
}

/// Append every byte of `src` to `dst`.
pub fn push_bytes(dst: &mut Vec<u8>, src: &Vec<u8>)
    ensures
        final(dst)@ == old(dst)@ + src@,
{
    let mut i: usize = 0;
    while i < src.len()
        invariant
            i <= src.len(),
            dst@ == old(dst)@ + src@.subrange(0, i as int),
        decreases src.len() - i,
    {
        dst.push(src[i]);
        assert(dst@ == old(dst)@ + src@.subrange(0, i + 1 as int));
        i = i + 1;
    }
    assert(src@.subrange(0, src@.len() as int) == src@);
}

/// A copy of a byte string.
pub fn clone_bytes(src: &Vec<u8>) -> (r: Vec<u8>)
    ensures
        r@ == src@,
{
    let mut r: Vec<u8> = Vec::new();
    push_bytes(&mut r, src);
    assert(r@ == src@);
    r
}

/// Whether two byte strings hold the same bytes.
pub fn bytes_eq(a: &Vec<u8>, b: &Vec<u8>) -> (r: bool)
    ensures
        r == (a@ == b@),
{
    if a.len() != b.len() {
        return false;
    }
    let mut i: usize = 0;
    while i < a.len()
        invariant
            i <= a.len(),
            a@.len() == b@.len(),
            forall|j: int| 0 <= j < i ==> a@[j] == b@[j],
        decreases a.len() - i,
    {
        if a[i] != b[i] {
            return false;
        }
        i = i + 1;
    }
    proof {
        assert(a@ =~= b@);
    }
    true
}

/// Whether the list of byte strings holds `x`.
pub fn bytes_list_contains(list: &Vec<Vec<u8>>, x: &Vec<u8>) -> (r: bool)
    ensures
        r == list.deep_view().contains(x@),
{
    let mut i: usize = 0;
    while i < list.len()
        invariant
            i <= list.len(),
            forall|j: int| 0 <= j < i ==> list.deep_view()[j] != x@,
        decreases list.len() - i,
    {
        assert(list.deep_view()[i as int] == list@[i as int]@);
        if bytes_eq(&list[i], x) {
            return true;
        }
        i = i + 1;
    }
    false
}

/// The bucket identifier of an agent on a DNA, as executable code.
pub fn cat_dna_agent(dna_address: &Vec<u8>, agent_id: &Vec<u8>) -> (r: Vec<u8>)
    ensures
        r@ == bucket_id_of(dna_address@, agent_id@),
{
    let mut r: Vec<u8> = Vec::new();
    push_bytes(&mut r, dna_address);
    r.push(58);
    r.push(58);
    push_bytes(&mut r, agent_id);
    proof {
        assert(r@ =~= bucket_id_of(dna_address@, agent_id@));
    }
    r
}

/// The meta address of a `(data, attribute)` pair, as executable code.
pub fn meta_to_address(data_address: &Vec<u8>, attribute: &Vec<u8>) -> (r: Vec<u8>)
    ensures
        r@ == meta_address_of(data_address@, attribute@),
{
    let mut r: Vec<u8> = Vec::new();
    push_bytes(&mut r, data_address);
    r.push(124);
    r.push(124);
    push_bytes(&mut r, attribute);
    proof {
        assert(r@ =~= meta_address_of(data_address@, attribute@));
    }
    r
}

/// The decimal digits of `n`, most significant first, without leading zeros
/// (except that zero itself is the single digit `0`).
pub open spec fn dec_digits(n: nat) -> Seq<u8>
    decreases n,
{
    if n < 10 {
        seq![(48 + n) as u8]
    } else {
        dec_digits(n / 10).push((48 + n % 10) as u8)
    }
}

/// The prefix of every internally issued request identifier: the bytes of `"req_"`.
pub open spec fn req_prefix() -> Seq<u8> {
    seq![114u8, 101u8, 113u8, 95u8]
}

/// The request identifier a server mints for its `n`-th internal request:
/// the bytes of `req_{n}`.
pub open spec fn req_id_of(n: nat) -> Seq<u8> {
    req_prefix() + dec_digits(n)
}

/// Whether `b` is the byte of a decimal digit.
pub open spec fn is_digit(b: u8) -> bool {
    48 <= b <= 57
}

/// Whether `s` has the shape of an internally issued request identifier:
/// the bytes of `"req_"` followed by at least one decimal digit.
pub open spec fn is_req_form(s: Seq<u8>) -> bool {
    &&& s.len() > 4
    &&& s.subrange(0, 4) == req_prefix()
    &&& forall|i: int| 4 <= i < s.len() ==> is_digit(#[trigger] s[i])
}

proof fn lemma_dec_digits_shape(n: nat)
    ensures
        dec_digits(n).len() >= 1,
        n >= 10 ==> dec_digits(n).len() >= 2,
        forall|i: int| 0 <= i < dec_digits(n).len() ==> is_digit(#[trigger] dec_digits(n)[i]),
    decreases n,
{
    if n >= 10 {
        lemma_dec_digits_shape(n / 10);
    }
}

proof fn lemma_dec_digits_injective(a: nat, b: nat)
    requires
        dec_digits(a) == dec_digits(b),
    ensures
        a == b,
    decreases a,
{
    lemma_dec_digits_shape(a);
    lemma_dec_digits_shape(b);
    if a < 10 && b < 10 {
        assert(dec_digits(a) == seq![(48 + a) as u8]);
        assert(dec_digits(b) == seq![(48 + b) as u8]);
        assert(seq![(48 + a) as u8][0] == (48 + a) as u8);
        assert(seq![(48 + b) as u8][0] == (48 + b) as u8);
        assert((48 + a) as u8 == (48 + b) as u8);
        assert(48 + a < 256 && 48 + b < 256);
    } else if a < 10 {
        assert(dec_digits(a).len() == 1);
        assert(dec_digits(b).len() >= 2);
    } else if b < 10 {
        assert(dec_digits(a).len() >= 2);
        assert(dec_digits(b).len() == 1);
    } else {
        let da = dec_digits(a);
        let db = dec_digits(b);
        assert(da.last() == db.last());
        assert((48 + a % 10) as u8 == (48 + b % 10) as u8);
        assert(a % 10 == b % 10);
        assert(dec_digits(a / 10).push((48 + a % 10) as u8).drop_last() =~= dec_digits(a / 10));
        assert(dec_digits(b / 10).push((48 + b % 10) as u8).drop_last() =~= dec_digits(b / 10));
        assert(da.drop_last() == db.drop_last());
        assert(dec_digits(a / 10) == dec_digits(b / 10));
        lemma_dec_digits_injective(a / 10, b / 10);
        assert(a == 10 * (a / 10) + a % 10);
        assert(b == 10 * (b / 10) + b % 10);
    }
}

/// Law: request identifiers minted by one server are pairwise distinct.
/// A server mints `req_id_of(n)` for its `n`-th internal request and never
/// repeats an `n`, so two issues within one server never collide.
pub proof fn lemma_request_ids_distinct(a: nat, b: nat)
    requires
        a != b,
    ensures
        req_id_of(a) != req_id_of(b),
{
    if req_id_of(a) == req_id_of(b) {
        lemma_dec_digits_shape(a);
        lemma_dec_digits_shape(b);
        let pa = req_id_of(a);
        let pb = req_id_of(b);
        assert(pa.subrange(4, pa.len() as int) =~= dec_digits(a));
        assert(pb.subrange(4, pb.len() as int) =~= dec_digits(b));
        lemma_dec_digits_injective(a, b);
    }
}

/// Law: every request identifier a server mints is the bytes of `"req_"`
/// followed by decimal digits.
pub proof fn lemma_request_id_form(n: nat)
    ensures
        is_req_form(req_id_of(n)),
{
    lemma_dec_digits_shape(n);
    let s = req_id_of(n);
    assert(s.subrange(0, 4) =~= req_prefix());
    assert(forall|i: int| 4 <= i < s.len() ==> is_digit(#[trigger] s[i]));
}

/// Append the decimal digits of `n` to `out`, most significant first.
fn push_dec_digits(n: u64, out: &mut Vec<u8>)
    ensures
        final(out)@ == old(out)@ + dec_digits(n as nat),
    decreases n,
{
    if n >= 10 {
        push_dec_digits(n / 10, out);
    }
    out.push(48 + (n % 10) as u8);
    proof {
        if n < 10 {
            assert(out@ =~= old(out)@ + dec_digits(n as nat));
        } else {
            assert((n / 10) as nat == n as nat / 10);
            assert((n % 10) as nat == n as nat % 10);
            assert(out@ =~= old(out)@ + dec_digits(n as nat));
        }
    }
}

/// The request identifier `req_{n}`, as executable code.
pub fn format_request_id(n: u64) -> (r: Vec<u8>)
    ensures
        r@ == req_id_of(n as nat),
{
    let mut r: Vec<u8> = Vec::new();
    r.push(114);
    r.push(101);
    r.push(113);
    r.push(95);
    assert(r@ =~= req_prefix());
    push_dec_digits(n, &mut r);
    r
}

} // verus!
