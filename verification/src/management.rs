//! What the minter asks of the management canister: the methods it calls,
//! the cycles it attaches to each call, and how it pages through the UTXOs
//! of an address.
use vstd::prelude::*;

verus! {

/// The management method that lists the UTXOs of a bitcoin address.
pub const GET_UTXOS_METHOD: &'static str = "bitcoin_get_utxos";

/// The management method that returns the current fee percentiles.
pub const GET_CURRENT_FEE_PERCENTILES_METHOD: &'static str = "bitcoin_get_current_fee_percentiles";

/// The management method that sends a bitcoin transaction.
pub const SEND_TRANSACTION_METHOD: &'static str = "bitcoin_send_transaction";

/// The management method that signs a message hash with threshold ECDSA.
pub const SIGN_WITH_ECDSA_METHOD: &'static str = "sign_with_ecdsa";

/// The cycles attached to each `bitcoin_get_utxos` call.
pub const GET_UTXOS_COST_CYCLES: u64 = 100_000_000;

/// The cycles attached to a `bitcoin_get_current_fee_percentiles` call.
pub const GET_CURRENT_FEE_PERCENTILES_COST_CYCLES: u64 = 100_000_000;

/// The cycles attached to a `bitcoin_send_transaction` call, before the
/// part that depends on the size of the transaction.
pub const SEND_TRANSACTION_BASE_COST_CYCLES: u64 = 5_000_000_000;

/// The cycles attached to a `bitcoin_send_transaction` call for each byte of
/// the serialized transaction.
pub const SEND_TRANSACTION_COST_CYCLES_PER_BYTE: u64 = 20_000_000;

/// The cycles attached to a `sign_with_ecdsa` call.
pub const CYCLES_PER_SIGNATURE: u64 = 10_000_000_000;

/// The cycles to attach to a `bitcoin_send_transaction` call for a
/// transaction of `tx_len` bytes.
pub open spec fn spec_send_transaction_cost_cycles(tx_len: nat) -> int {
    SEND_TRANSACTION_BASE_COST_CYCLES + tx_len * SEND_TRANSACTION_COST_CYCLES_PER_BYTE
}

/// The cost of sending a transaction is affine in its length: 5e9 cycles
/// for an empty transaction, and every further byte adds exactly 2e7 cycles.
pub proof fn lemma_send_transaction_cost_is_affine(tx_len: nat)
    ensures
        spec_send_transaction_cost_cycles(0) == 5_000_000_000,
        spec_send_transaction_cost_cycles(tx_len + 1) == spec_send_transaction_cost_cycles(tx_len)
            + 20_000_000,
        spec_send_transaction_cost_cycles(tx_len) == 5_000_000_000 + 20_000_000 * tx_len,
{
}

/// The cycles to attach to a `bitcoin_send_transaction` call for a
/// transaction of `tx_len` bytes, or `None` where they do not fit in a `u64`
/// (transactions longer than about 900 GB).
pub fn send_transaction_cost_cycles(tx_len: usize) -> (cycles: Option<u64>)
    ensures
        match cycles {
            Some(c) => c == spec_send_transaction_cost_cycles(tx_len as nat),
            None => spec_send_transaction_cost_cycles(tx_len as nat) > u64::MAX,
        },
        cycles is Some <==> 5_000_000_000 + 20_000_000 * tx_len <= u64::MAX,
        cycles matches Some(c) ==> c == 5_000_000_000 + 20_000_000 * tx_len,
{
    let len = tx_len as u64;
    if len > (u64::MAX - SEND_TRANSACTION_BASE_COST_CYCLES) / SEND_TRANSACTION_COST_CYCLES_PER_BYTE {
        return None;
    }
    Some(SEND_TRANSACTION_BASE_COST_CYCLES + len * SEND_TRANSACTION_COST_CYCLES_PER_BYTE)
}

/// The filter of a `bitcoin_get_utxos` request.
#[derive(Debug, Clone, PartialEq, Eq)]
pub enum UtxosFilter {
    /// Only the UTXOs with at least this many confirmations.
    MinConfirmations(u32),
    /// The page of the UTXOs that a previous response pointed to.
    Page(Vec<u8>),
}

/// The filter of the first `bitcoin_get_utxos` request for the UTXOs of an
/// address with at least `min_confirmations` confirmations.
pub fn first_utxos_filter(min_confirmations: u32) -> (filter: UtxosFilter)
    ensures
        filter == UtxosFilter::MinConfirmations(min_confirmations),
{
    UtxosFilter::MinConfirmations(min_confirmations)
}

/// Takes in one `bitcoin_get_utxos` response: appends its UTXOs to those
/// fetched so far and returns the filter of the next request, if the
/// response points to a next page.
pub fn take_utxos_page<T>(utxos: &mut Vec<T>, page_utxos: Vec<T>, next_page: Option<Vec<u8>>) -> (next: Option<UtxosFilter>)
    ensures
        final(utxos)@ == old(utxos)@ + page_utxos@,
        match next_page {
            Some(page) => next == Some(UtxosFilter::Page(page)),
            None => next is None,
        },
{
    let mut page_utxos = page_utxos;
    utxos.append(&mut page_utxos);
    match next_page {
        Some(page) => Some(UtxosFilter::Page(page)),
        None => None,
    }
}

/// Paging through the UTXOs of an address loses and reorders nothing: when
/// `states` are the UTXOs collected before and after each call of
/// `take_utxos_page`, starting from none and taking in `pages` one after
/// another, the final list is all the UTXOs of the pages, in order.
pub proof fn lemma_paging_collects_all_utxos<T>(pages: Seq<Seq<T>>, states: Seq<Seq<T>>)
    requires
        states.len() == pages.len() + 1,
        states[0] == Seq::<T>::empty(),
        forall|i: int| 0 <= i < pages.len() ==> #[trigger] states[i + 1] == states[i] + pages[i],
    ensures
        states.last() == pages.flatten(),
    decreases pages.len(),
{
    if pages.len() == 0 {
        assert(pages.flatten() == Seq::<T>::empty());
    } else {
        let n = pages.len() - 1;
        let prev_pages = pages.drop_last();
        let prev_states = states.drop_last();
        assert forall|i: int| 0 <= i < prev_pages.len() implies #[trigger] prev_states[i + 1]
            == prev_states[i] + prev_pages[i] by {
            assert(states[i + 1] == states[i] + pages[i]);
        }
        lemma_paging_collects_all_utxos(prev_pages, prev_states);
        assert(states[n + 1] == states[n] + pages[n]);
        prev_pages.lemma_flatten_push(pages.last());
        assert(prev_pages.push(pages.last()) =~= pages);
    }
}

} // verus!
