//! Payments as the chain shows them.

use crate::text::{
    debug_quoted, debug_text, option_is, option_view, parse_number, parsed, same_text, trim,
    trim_end_of, trimmed, trimmed_end_of, NumberError,
};
use vstd::prelude::*;

verus! {

/// One transaction that pays into a watched address.
#[derive(Clone, Debug)]
pub struct AddressTx {
    /// The transaction's identifier.
    pub txid: String,
    /// Sats that the watched address receives.
    pub received_sats: u64,
    /// The block it is in; none while it waits in the mempool.
    pub block_height: Option<u64>,
    /// When that block was mined, in Unix seconds.
    pub block_time: Option<u64>,
}

/// What an [`AddressTx`] holds.
#[verifier::ext_equal]
pub struct TxView {
    pub txid: Seq<char>,
    pub received_sats: u64,
    pub block_height: Option<u64>,
    pub block_time: Option<u64>,
}

impl View for AddressTx {
    type V = TxView;

    open spec fn view(&self) -> TxView {
        TxView {
            txid: self.txid@,
            received_sats: self.received_sats,
            block_height: self.block_height,
            block_time: self.block_time,
        }
    }
}

/// The views of a list of transactions.
pub open spec fn tx_views(txs: Seq<AddressTx>) -> Seq<TxView> {
    Seq::new(txs.len(), |i: int| txs[i]@)
}

/// Confirmations of a transaction at height `height` under the tip `tip`: its
/// own block counts as one. The count is kept in 32 bits.
pub open spec fn confirmations_at(height: Option<u64>, tip: u64) -> int {
    match height {
        Some(h) => if tip >= h {
            (tip - h + 1) % 0x1_0000_0000
        } else {
            0
        },
        None => 0,
    }
}

impl AddressTx {
    /// Confirmations under the chain tip `tip`; none while in the mempool.
    pub fn confirmations(&self, tip: u64) -> (n: u32)
        ensures
            n == confirmations_at(self.block_height, tip),
    {
        match self.block_height {
            Some(h) if tip >= h => {
                let d: u64 = (tip - h).wrapping_add(1);
                let n: u32 = d as u32;
                assert(n == d % 0x1_0000_0000) by (bit_vector)
                    requires
                        n == d as u32,
                ;
                assert((tip - h + 1) % 0x1_0000_0000 == d % 0x1_0000_0000);
                n
            },
            _ => 0,
        }
    }

    /// A copy of this transaction.
    pub fn copy(&self) -> (out: AddressTx)
        ensures
            out == *self,
    {
        AddressTx {
            txid: self.txid.clone(),
            received_sats: self.received_sats,
            block_height: self.block_height,
            block_time: self.block_time,
        }
    }
}

// ── finding payments ──────────────────────────────────────────────

/// The first of a list of transactions of which `wanted` holds.
pub open spec fn first_where(txs: Seq<TxView>, wanted: spec_fn(TxView) -> bool) -> Option<TxView>
    decreases txs.len(),
{
    if txs.len() == 0 {
        None
    } else if wanted(txs[0]) {
        Some(txs[0])
    } else {
        first_where(txs.subrange(1, txs.len() as int), wanted)
    }
}

/// Pays exactly `sats` and is not the transaction `seen`.
pub open spec fn pays_exactly(sats: u64, seen: Option<Seq<char>>) -> spec_fn(TxView) -> bool {
    |t: TxView| t.received_sats == sats && seen != Some(t.txid)
}

/// Pays at least `sats` and is not the transaction `seen`.
pub open spec fn pays_enough(sats: u64, seen: Option<Seq<char>>) -> spec_fn(TxView) -> bool {
    |t: TxView| t.received_sats >= sats && seen != Some(t.txid)
}

/// Is the transaction `txid`.
pub open spec fn is_tx(txid: Seq<char>) -> spec_fn(TxView) -> bool {
    |t: TxView| t.txid == txid
}

/// How far a search has come: what stands before `i` is not wanted.
proof fn lemma_first_where_step(
    txs: Seq<AddressTx>,
    wanted: spec_fn(TxView) -> bool,
    i: int,
)
    requires
        0 <= i < txs.len(),
    ensures
        ({
            let rest = tx_views(txs).subrange(i, txs.len() as int);
            let more = tx_views(txs).subrange(i + 1, txs.len() as int);
            first_where(rest, wanted) == (if wanted(txs[i]@) {
                Some(txs[i]@)
            } else {
                first_where(more, wanted)
            })
        }),
{
    let rest = tx_views(txs).subrange(i, txs.len() as int);
    assert(rest[0] == txs[i]@);
    assert(rest.subrange(1, rest.len() as int) =~= tx_views(txs).subrange(
        i + 1,
        txs.len() as int,
    ));
}

/// Which payment is looked for.
enum Wanted<'a> {
    Exactly(u64, &'a Option<String>),
    Enough(u64, &'a Option<String>),
    Id(&'a str),
}

impl<'a> Wanted<'a> {
    spec fn test(self) -> spec_fn(TxView) -> bool {
        match self {
            Wanted::Exactly(sats, seen) => pays_exactly(sats, option_view(*seen)),
            Wanted::Enough(sats, seen) => pays_enough(sats, option_view(*seen)),
            Wanted::Id(txid) => is_tx(txid@),
        }
    }

    fn accepts(&self, tx: &AddressTx) -> (yes: bool)
        ensures
            yes == (self.test())(tx@),
    {
        match self {
            Wanted::Exactly(sats, seen) => tx.received_sats == *sats && !option_is(
                seen,
                tx.txid.as_str(),
            ),
            Wanted::Enough(sats, seen) => tx.received_sats >= *sats && !option_is(
                seen,
                tx.txid.as_str(),
            ),
            Wanted::Id(txid) => same_text(tx.txid.as_str(), txid),
        }
    }
}

fn find_first(txs: &Vec<AddressTx>, wanted: Wanted<'_>) -> (tx: Option<AddressTx>)
    ensures
        tx_option(tx) == first_where(tx_views(txs@), wanted.test()),
{
    let mut i: usize = 0;
    assert(tx_views(txs@).subrange(0, txs@.len() as int) =~= tx_views(txs@));
    while i < txs.len()
        invariant
            i <= txs.len(),
            first_where(tx_views(txs@), wanted.test()) == first_where(
                tx_views(txs@).subrange(i as int, txs@.len() as int),
                wanted.test(),
            ),
        decreases txs.len() - i,
    {
        proof {
            lemma_first_where_step(txs@, wanted.test(), i as int);
        }
        if wanted.accepts(&txs[i]) {
            return Some(txs[i].copy());
        }
        i = i + 1;
    }
    None
}

/// The view of an optional transaction.
pub open spec fn tx_option(tx: Option<AddressTx>) -> Option<TxView> {
    match tx {
        Some(t) => Some(t@),
        None => None,
    }
}

/// The first transaction that pays exactly `sats` and is not `seen`.
pub fn find_exact(txs: &Vec<AddressTx>, sats: u64, seen: &Option<String>) -> (tx: Option<AddressTx>)
    ensures
        tx_option(tx) == first_where(tx_views(txs@), pays_exactly(sats, option_view(*seen))),
{
    find_first(txs, Wanted::Exactly(sats, seen))
}

/// The first transaction that pays at least `sats` and is not `seen`.
pub fn find_enough(txs: &Vec<AddressTx>, sats: u64, seen: &Option<String>) -> (tx: Option<
    AddressTx,
>)
    ensures
        tx_option(tx) == first_where(tx_views(txs@), pays_enough(sats, option_view(*seen))),
{
    find_first(txs, Wanted::Enough(sats, seen))
}

/// The transaction `txid`.
pub fn find_tx(txs: &Vec<AddressTx>, txid: &str) -> (tx: Option<AddressTx>)
    ensures
        tx_option(tx) == first_where(tx_views(txs@), is_tx(txid@)),
{
    find_first(txs, Wanted::Id(txid))
}

/// A list of transactions without `txid`.
pub open spec fn without_tx(txs: Seq<TxView>, txid: Seq<char>) -> Seq<TxView>
    decreases txs.len(),
{
    if txs.len() == 0 {
        Seq::empty()
    } else {
        let front = without_tx(txs.drop_last(), txid);
        if txs.last().txid == txid {
            front
        } else {
            front.push(txs.last())
        }
    }
}

/// What is left of a list was in it and is another transaction.
pub proof fn lemma_without_tx(txs: Seq<TxView>, txid: Seq<char>)
    ensures
        forall|i: int|
            0 <= i < without_tx(txs, txid).len() ==> (#[trigger] without_tx(txs, txid)[i]).txid
                != txid && txs.contains(without_tx(txs, txid)[i]),
    decreases txs.len(),
{
    if txs.len() > 0 {
        let front = txs.drop_last();
        lemma_without_tx(front, txid);
        assert forall|i: int| 0 <= i < without_tx(txs, txid).len() implies (
        #[trigger] without_tx(txs, txid)[i]).txid != txid && txs.contains(
            without_tx(txs, txid)[i],
        ) by {
            if i < without_tx(front, txid).len() {
                assert(without_tx(txs, txid)[i] == without_tx(front, txid)[i]);
                let k = choose|k: int|
                    0 <= k < front.len() && front[k] == without_tx(front, txid)[i];
                assert(txs[k] == front[k]);
            } else {
                assert(without_tx(txs, txid)[i] == txs[txs.len() - 1]);
            }
        }
    }
}

/// A list of transactions without `txid`.
pub fn drop_tx(txs: &Vec<AddressTx>, txid: &str) -> (left: Vec<AddressTx>)
    ensures
        tx_views(left@) == without_tx(tx_views(txs@), txid@),
{
    let ghost all = tx_views(txs@);
    let mut left: Vec<AddressTx> = Vec::new();
    let mut i: usize = 0;
    assert(tx_views(left@) =~= without_tx(all.take(0), txid@));
    while i < txs.len()
        invariant
            i <= txs.len(),
            all == tx_views(txs@),
            tx_views(left@) == without_tx(all.take(i as int), txid@),
        decreases txs.len() - i,
    {
        let ghost before = left@;
        proof {
            assert(all.take(i + 1).drop_last() =~= all.take(i as int));
            assert(all.take(i + 1).last() == txs@[i as int]@);
        }
        if !same_text(txs[i].txid.as_str(), txid) {
            left.push(txs[i].copy());
            assert(tx_views(left@) =~= tx_views(before).push(txs@[i as int]@));
        }
        i = i + 1;
    }
    assert(all.take(all.len() as int) =~= all);
    left
}

/// A transaction that was not mined before `opened`, in seconds since the
/// epoch. One that is not mined yet was not.
pub open spec fn not_before(t: TxView, opened: u64) -> bool {
    t.block_time matches Some(mined) ==> mined >= opened
}

/// The transactions of a list that were not mined before `opened`.
pub open spec fn landed_since(txs: Seq<TxView>, opened: u64) -> Seq<TxView>
    decreases txs.len(),
{
    if txs.len() == 0 {
        Seq::empty()
    } else {
        let front = landed_since(txs.drop_last(), opened);
        if not_before(txs.last(), opened) {
            front.push(txs.last())
        } else {
            front
        }
    }
}

/// What landed since was in the list and is no older.
pub proof fn lemma_landed_since(txs: Seq<TxView>, opened: u64)
    ensures
        forall|i: int|
            0 <= i < landed_since(txs, opened).len() ==> not_before(
                #[trigger] landed_since(txs, opened)[i],
                opened,
            ) && txs.contains(landed_since(txs, opened)[i]),
    decreases txs.len(),
{
    if txs.len() > 0 {
        let front = txs.drop_last();
        lemma_landed_since(front, opened);
        assert forall|i: int| 0 <= i < landed_since(txs, opened).len() implies not_before(
            #[trigger] landed_since(txs, opened)[i],
            opened,
        ) && txs.contains(landed_since(txs, opened)[i]) by {
            if i < landed_since(front, opened).len() {
                assert(landed_since(txs, opened)[i] == landed_since(front, opened)[i]);
                let k = choose|k: int|
                    0 <= k < front.len() && front[k] == landed_since(front, opened)[i];
                assert(txs[k] == front[k]);
            } else {
                assert(landed_since(txs, opened)[i] == txs[txs.len() - 1]);
            }
        }
    }
}

/// The transactions of a list that were not mined before `opened`.
pub fn keep_since(txs: &Vec<AddressTx>, opened: u64) -> (kept: Vec<AddressTx>)
    ensures
        tx_views(kept@) == landed_since(tx_views(txs@), opened),
{
    let ghost all = tx_views(txs@);
    let mut kept: Vec<AddressTx> = Vec::new();
    let mut i: usize = 0;
    assert(tx_views(kept@) =~= landed_since(all.take(0), opened));
    while i < txs.len()
        invariant
            i <= txs.len(),
            all == tx_views(txs@),
            tx_views(kept@) == landed_since(all.take(i as int), opened),
        decreases txs.len() - i,
    {
        let ghost before = kept@;
        proof {
            assert(all.take(i + 1).drop_last() =~= all.take(i as int));
            assert(all.take(i + 1).last() == txs@[i as int]@);
        }
        let recent: bool = match txs[i].block_time {
            Some(mined) => mined >= opened,
            None => true,
        };
        if recent {
            kept.push(txs[i].copy());
            assert(tx_views(kept@) =~= tx_views(before).push(txs@[i as int]@));
        }
        i = i + 1;
    }
    assert(all.take(all.len() as int) =~= all);
    kept
}

/// What a search finds is in the list and wanted, and nothing wanted stands
/// before it; where it finds nothing, nothing in the list is wanted.
pub proof fn law_search_finds_the_first(txs: Seq<TxView>, wanted: spec_fn(TxView) -> bool)
    ensures
        match first_where(txs, wanted) {
            Some(t) => wanted(t) && exists|i: int|
                0 <= i < txs.len() && txs[i] == t && forall|j: int|
                    0 <= j < i ==> !wanted(#[trigger] txs[j]),
            None => forall|j: int| 0 <= j < txs.len() ==> !wanted(#[trigger] txs[j]),
        },
    decreases txs.len(),
{
    if txs.len() > 0 && !wanted(txs[0]) {
        let rest = txs.subrange(1, txs.len() as int);
        law_search_finds_the_first(rest, wanted);
        assert forall|j: int| 0 < j < txs.len() implies txs[j] == #[trigger] rest[j - 1] by {}
        match first_where(rest, wanted) {
            Some(t) => {
                let i = choose|i: int|
                    0 <= i < rest.len() && rest[i] == t && forall|j: int|
                        0 <= j < i ==> !wanted(#[trigger] rest[j]);
                assert(txs[i + 1] == t);
                assert forall|j: int| 0 <= j < i + 1 implies !wanted(#[trigger] txs[j]) by {
                    if j > 0 {
                        assert(txs[j] == rest[j - 1]);
                    }
                }
            },
            None => {
                assert forall|j: int| 0 <= j < txs.len() implies !wanted(#[trigger] txs[j]) by {
                    if j > 0 {
                        assert(txs[j] == rest[j - 1]);
                    }
                }
            },
        }
    }
}

// ── mempool.space ─────────────────────────────────────────────────

/// One output of a transaction as mempool.space reports it.
#[derive(Clone, Debug)]
pub struct MempoolRawVout {
    /// Where the output pays to, if it has an address.
    pub scriptpubkey_address: Option<String>,
    /// Its value in sats.
    pub value: u64,
}

/// Where a transaction stands, as mempool.space reports it.
#[derive(Clone, Debug)]
pub struct MempoolRawStatus {
    /// Whether it is in a block.
    pub confirmed: bool,
    /// The block's height.
    pub block_height: Option<u64>,
    /// The block's time in Unix seconds.
    pub block_time: Option<u64>,
}

/// A transaction as mempool.space reports it.
#[derive(Clone, Debug)]
pub struct MempoolRawTx {
    /// The transaction's identifier.
    pub txid: String,
    /// Its outputs.
    pub vout: Vec<MempoolRawVout>,
    /// Where it stands.
    pub status: MempoolRawStatus,
}

/// What an output pays to `address`.
pub open spec fn pays(out: MempoolRawVout, address: Seq<char>) -> nat {
    if out.scriptpubkey_address matches Some(a) && a@ == address {
        out.value as nat
    } else {
        0
    }
}

/// What a list of outputs pays to `address`.
pub open spec fn paid_to(vout: Seq<MempoolRawVout>, address: Seq<char>) -> nat
    decreases vout.len(),
{
    if vout.len() == 0 {
        0
    } else {
        paid_to(vout.drop_last(), address) + pays(vout.last(), address)
    }
}

/// What a transaction means to a watched address.
pub open spec fn projected(raw: MempoolRawTx, address: Seq<char>) -> TxView {
    TxView {
        txid: raw.txid@,
        received_sats: paid_to(raw.vout@, address) as u64,
        block_height: if raw.status.confirmed {
            raw.status.block_height
        } else {
            None
        },
        block_time: if raw.status.confirmed {
            raw.status.block_time
        } else {
            None
        },
    }
}

/// More outputs pay no less.
proof fn lemma_paid_grows(vout: Seq<MempoolRawVout>, address: Seq<char>, n: int)
    requires
        0 <= n <= vout.len(),
    ensures
        paid_to(vout.take(n), address) <= paid_to(vout, address),
    decreases vout.len() - n,
{
    if n < vout.len() {
        lemma_paid_grows(vout, address, n + 1);
        assert(vout.take(n + 1).drop_last() =~= vout.take(n));
    } else {
        assert(vout.take(n) =~= vout);
    }
}

/// What a transaction means to a watched address: the sum of the outputs that
/// pay to it, and its block if it is confirmed.
pub fn project_mempool_tx(raw: MempoolRawTx, target_address: &str) -> (tx: AddressTx)
    requires
        paid_to(raw.vout@, target_address@) <= u64::MAX,
    ensures
        tx@ == projected(raw, target_address@),
{
    let mut received_sats: u64 = 0;
    let mut i: usize = 0;
    assert(raw.vout@.take(0) =~= Seq::empty());
    while i < raw.vout.len()
        invariant
            i <= raw.vout.len(),
            received_sats == paid_to(raw.vout@.take(i as int), target_address@),
            paid_to(raw.vout@, target_address@) <= u64::MAX,
        decreases raw.vout.len() - i,
    {
        proof {
            assert(raw.vout@.take(i + 1).drop_last() =~= raw.vout@.take(i as int));
            lemma_paid_grows(raw.vout@, target_address@, i + 1);
        }
        if option_is(&raw.vout[i].scriptpubkey_address, target_address) {
            received_sats = received_sats + raw.vout[i].value;
        }
        i = i + 1;
    }
    assert(raw.vout@.take(raw.vout@.len() as int) =~= raw.vout@);
    let (block_height, block_time): (Option<u64>, Option<u64>) = if raw.status.confirmed {
        (raw.status.block_height, raw.status.block_time)
    } else {
        (None, None)
    };
    AddressTx { txid: raw.txid, received_sats, block_height, block_time }
}

/// Where mempool.space lists the transactions of an address.
pub open spec fn address_txs_path(base: Seq<char>, address: Seq<char>) -> Seq<char> {
    trim_end_of(base, '/') + "/address/"@ + address + "/txs"@
}

/// Where mempool.space lists the transactions of an address.
pub fn address_txs_url(base_url: &str, address: &str) -> (url: String)
    ensures
        url@ == address_txs_path(base_url@, address@),
{
    let mut url: String = trimmed_end_of(base_url, '/').to_owned();
    url.append("/address/");
    url.append(address);
    url.append("/txs");
    url
}

/// Where mempool.space gives the height of the chain.
pub fn tip_height_url(base_url: &str) -> (url: String)
    ensures
        url@ == trim_end_of(base_url@, '/') + "/blocks/tip/height"@,
{
    let mut url: String = trimmed_end_of(base_url, '/').to_owned();
    url.append("/blocks/tip/height");
    url
}

/// What is said of an answer that is no height.
pub open spec fn tip_fault(body: Seq<char>, error: NumberError) -> Seq<char> {
    "parse tip height "@ + debug_quoted(body) + ": "@ + error.text()
}

/// The height in an answer of mempool.space.
pub fn parse_tip_height(body: &str) -> (height: Result<u64, String>)
    ensures
        match height {
            Ok(n) => parsed(trim(body@), u64::MAX) == Ok::<u64, NumberError>(n),
            Err(e) => parsed(trim(body@), u64::MAX) is Err && e@ == tip_fault(
                body@,
                parsed(trim(body@), u64::MAX)->Err_0,
            ),
        },
{
    match parse_number(trimmed(body), u64::MAX) {
        Ok(n) => Ok(n),
        Err(error) => {
            let mut e: String = "parse tip height ".to_owned();
            e.append(debug_text(body).as_str());
            e.append(": ");
            e.append(error.message());
            Err(e)
        },
    }
}

// ── laws ──────────────────────────────────────────────────────────

/// What two lists of outputs pay to an address is what each pays, together:
/// only outputs to that address count.
pub proof fn law_payments_add_up(a: Seq<MempoolRawVout>, b: Seq<MempoolRawVout>, address: Seq<char>)
    ensures
        paid_to(a + b, address) == paid_to(a, address) + paid_to(b, address),
    decreases b.len(),
{
    if b.len() == 0 {
        assert(a + b =~= a);
    } else {
        law_payments_add_up(a, b.drop_last(), address);
        assert((a + b).drop_last() =~= a + b.drop_last());
    }
}

/// A confirmation never goes away while the chain grows: under a later tip a
/// transaction has at least as many, up to the 32-bit limit of the count.
pub proof fn law_confirmations_grow(height: Option<u64>, tip: u64, later: u64)
    requires
        tip <= later,
        later < 0xffff_ffff,
    ensures
        confirmations_at(height, tip) <= confirmations_at(height, later),
        height is None ==> confirmations_at(height, later) == 0,
        height == Some(tip) ==> confirmations_at(height, tip) == 1,
{
}

} // verus!
