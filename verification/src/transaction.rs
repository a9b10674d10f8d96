//! The transaction generator: a deterministic, monotonically tagged sequence
//! of fixed-size synthetic payloads.
//!
//! A payload is one constant tag byte, the eight big-endian bytes of the
//! sequence counter, and zero padding up to `TX_SIZE`. Counters are dense and
//! strictly increasing over a run, starting at zero.

use vstd::prelude::*;

use crate::encoding::{be64_bytes, be64_value, lemma_be64_round_trip, push_be64, read_be64};

verus! {

/// The constant first byte marking a benchmark-generated sample.
pub const TX_TAG: u8 = 0;

/// The fixed total size of a transaction payload, in bytes.
pub const TX_SIZE: usize = 64;

/// How many transactions one benchmark run sends.
pub const TRANSACTION_COUNT: u64 = 100000;

/// The canonical payload of the transaction with sequence counter `index`.
pub open spec fn tx_payload(index: u64) -> Seq<u8> {
    seq![TX_TAG] + be64_bytes(index) + Seq::new((TX_SIZE - 9) as nat, |i: int| 0u8)
}

/// Whether `s` is shaped like a transaction payload: full size, tagged.
pub open spec fn valid_tx(s: Seq<u8>) -> bool {
    s.len() == TX_SIZE && s[0] == TX_TAG
}

/// The sequence counter carried in a transaction payload.
pub open spec fn tx_index(s: Seq<u8>) -> int
    recommends
        valid_tx(s),
{
    be64_value(s.subrange(1, 9))
}

/// Builds the payload of transaction `index`.
pub fn generate(index: u64) -> (r: Vec<u8>)
    ensures
        r@ == tx_payload(index),
        r@.len() == TX_SIZE,
{
    let mut out: Vec<u8> = Vec::new();
    out.push(TX_TAG);
    push_be64(&mut out, index);
    proof {
        assert(out@ =~= seq![TX_TAG] + be64_bytes(index));
    }
    while out.len() < TX_SIZE
        invariant
            9 <= out@.len() <= TX_SIZE,
            out@.subrange(0, 9) == seq![TX_TAG] + be64_bytes(index),
            forall|k: int| 9 <= k < out@.len() ==> out@[k] == 0u8,
        decreases TX_SIZE - out@.len(),
    {
        out.push(0u8);
        proof {
            assert(out@.subrange(0, 9) =~= seq![TX_TAG] + be64_bytes(index));
        }
    }
    proof {
        assert(out@ =~= tx_payload(index));
    }
    out
}

/// Reads the sequence counter back out of a payload, refusing anything not
/// shaped like a transaction.
pub fn decode_index(payload: &Vec<u8>) -> (r: Option<u64>)
    ensures
        valid_tx(payload@) ==> (r matches Some(i) && i == tx_index(payload@)),
        !valid_tx(payload@) ==> r is None,
{
    if payload.len() != TX_SIZE {
        return None;
    }
    if payload[0] != TX_TAG {
        return None;
    }
    Some(read_be64(payload, 1))
}

/// Round trip: a generated payload is well shaped and decodes back to the
/// index it was generated from.
pub proof fn lemma_tx_round_trip(index: u64)
    ensures
        valid_tx(tx_payload(index)),
        tx_index(tx_payload(index)) == index,
{
    lemma_be64_round_trip(index);
    assert(tx_payload(index).subrange(1, 9) =~= be64_bytes(index));
}

/// Distinct indices always yield distinct payloads, so the transactions of a
/// run of any length are pairwise distinct.
pub proof fn lemma_tx_distinct(i: u64, j: u64)
    requires
        i != j,
    ensures
        tx_payload(i) != tx_payload(j),
{
    lemma_tx_round_trip(i);
    lemma_tx_round_trip(j);
    if tx_payload(i) == tx_payload(j) {
        assert(tx_index(tx_payload(i)) == tx_index(tx_payload(j)));
    }
}

} // verus!
