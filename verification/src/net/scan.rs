//! Which transactions of a block created a contract of ours, told from the
//! receipts in whatever order they arrived.

use crate::net::chain::Address;
use crate::net::chain::Receipt;
use crate::net::chain::ReceiptReply;
use crate::net::chain::Transaction;
use vstd::prelude::*;
use vstd::seq_lib::*;
use vstd::set_lib::*;

verus! {

/// The replies answer a block of `count` transactions: one reply for each
/// position, none twice.
pub open spec fn one_reply_each(replies: Seq<ReceiptReply>, count: int) -> bool {
    &&& replies.len() == count
    &&& forall|j: int| 0 <= j < replies.len() ==> (#[trigger] replies[j]).index < count
    &&& forall|j: int, k: int|
        0 <= j < k < replies.len() ==> (#[trigger] replies[j]).index != (
        #[trigger] replies[k]).index
}

/// The receipt that the replies hold for the transaction at `index`.
pub open spec fn receipt_for(replies: Seq<ReceiptReply>, index: int) -> Option<Receipt> {
    if exists|j: int| 0 <= j < replies.len() && (#[trigger] replies[j]).index == index {
        let j = choose|j: int| 0 <= j < replies.len() && (#[trigger] replies[j]).index == index;
        replies[j].receipt
    } else {
        None
    }
}

/// The contract that a receipt reports as created by `sender`.
pub open spec fn created_by(receipt: Option<Receipt>, sender: Address) -> Option<Address> {
    match receipt {
        Some(r) => if r.from == sender {
            r.contract_address
        } else {
            None
        },
        None => None,
    }
}

/// For each transaction of a block, whether its input is exactly `code`.
pub open spec fn input_matches(transactions: Seq<Transaction>, code: Seq<u8>) -> Seq<bool> {
    Seq::new(transactions.len(), |i: int| transactions[i].input@ == code)
}

/// The hash of each transaction of a block, in the block's order.
pub open spec fn hashes_of(transactions: Seq<Transaction>) -> Seq<[u8; 32]> {
    Seq::new(transactions.len(), |i: int| transactions[i].hash)
}

/// The contracts that a block's transactions created for `sender`, in the
/// order of the transactions: `matching` marks the transactions whose input
/// is the expected code.
pub open spec fn block_deployments(
    matching: Seq<bool>,
    replies: Seq<ReceiptReply>,
    sender: Address,
) -> Seq<Address>
    decreases matching.len(),
{
    if matching.len() == 0 {
        Seq::empty()
    } else {
        let earlier = block_deployments(matching.drop_last(), replies, sender);
        let last = matching.len() - 1;
        match created_by(receipt_for(replies, last), sender) {
            Some(address) => if matching[last] {
                earlier.push(address)
            } else {
                earlier
            },
            None => earlier,
        }
    }
}

/// Where no two replies share a position, the reply at a position is the
/// one that `receipt_for` finds.
proof fn lemma_receipt_for_unique(replies: Seq<ReceiptReply>, count: int, j: int)
    requires
        one_reply_each(replies, count),
        0 <= j < replies.len(),
    ensures
        receipt_for(replies, replies[j].index as int) == replies[j].receipt,
{
    let index = replies[j].index as int;
    let k = choose|k: int| 0 <= k < replies.len() && (#[trigger] replies[k]).index == index;
    assert(k == j) by {
        if k < j {
            assert(replies[k].index != replies[j].index);
        } else if j < k {
            assert(replies[j].index != replies[k].index);
        }
    }
}

/// The contract that a receipt reports as created by `sender`.
pub fn creation_of(receipt: &Option<Receipt>, sender: &Address) -> (created: Option<Address>)
    ensures
        created == created_by(*receipt, *sender),
{
    match receipt {
        Some(r) => if r.from == *sender {
            r.contract_address
        } else {
            None
        },
        None => None,
    }
}

/// Lists the contracts that a block's transactions created for `sender`,
/// in the order of the transactions, whatever the order of the replies.
/// Replies that do not answer each transaction once are refused.
pub fn block_matches(matching: &Vec<bool>, replies: &Vec<ReceiptReply>, sender: &Address) -> (found:
    Option<Vec<Address>>)
    ensures
        found is Some <==> one_reply_each(replies@, matching.len() as int),
        found matches Some(list) ==> list@ == block_deployments(matching@, replies@, *sender),
{
    let count = matching.len();
    if replies.len() != count {
        return None;
    }
    let mut slots: Vec<Option<usize>> = Vec::new();
    let mut i: usize = 0;
    while i < count
        invariant
            i <= count,
            slots.len() == i,
            forall|k: int| 0 <= k < i ==> slots[k] is None,
        decreases count - i,
    {
        slots.push(None);
        i += 1;
    }
    let mut j: usize = 0;
    while j < count
        invariant
            j <= count,
            count == matching.len(),
            replies.len() == count,
            slots.len() == count,
            forall|i: int|
                0 <= i < count ==> (#[trigger] slots[i] matches Some(p) ==> p < j
                    && replies[p as int].index == i),
            forall|p: int|
                0 <= p < j ==> (#[trigger] replies[p]).index < count
                    && slots[replies[p].index as int] == Some(p as usize),
        decreases count - j,
    {
        let index = replies[j].index;
        if index >= count {
            return None;
        }
        if slots[index].is_some() {
            proof {
                let p = slots[index as int]->0 as int;
                assert(replies[p].index == replies[j as int].index);
            }
            return None;
        }
        slots.set(index, Some(j));
        j += 1;
    }
    assert(one_reply_each(replies@, count as int)) by {
        assert forall|a: int, b: int| 0 <= a < b < replies.len() implies (
        #[trigger] replies[a]).index != (#[trigger] replies[b]).index by {
            assert(slots[replies[a].index as int] == Some(a as usize));
            assert(slots[replies[b].index as int] == Some(b as usize));
        }
    }
    let mut list: Vec<Address> = Vec::new();
    let mut i: usize = 0;
    while i < count
        invariant
            i <= count,
            count == matching.len(),
            replies.len() == count,
            slots.len() == count,
            one_reply_each(replies@, count as int),
            forall|i: int|
                0 <= i < count ==> (#[trigger] slots[i] matches Some(p) ==> p < count
                    && replies[p as int].index == i),
            forall|p: int|
                0 <= p < count ==> slots[(#[trigger] replies[p]).index as int] == Some(p as usize),
            list@ == block_deployments(matching@.take(i as int), replies@, *sender),
        decreases count - i,
    {
        let receipt = match slots[i] {
            Some(p) => {
                proof {
                    lemma_receipt_for_unique(replies@, count as int, p as int);
                }
                replies[p].receipt
            },
            None => None,
        };
        assert(receipt == receipt_for(replies@, i as int));
        assert(matching@.take(i + 1).drop_last() =~= matching@.take(i as int));
        if let Some(address) = creation_of(&receipt, sender) {
            if matching[i] {
                list.push(address);
            }
        }
        i += 1;
    }
    assert(matching@.take(count as int) =~= matching@);
    Some(list)
}

/// Whether two byte strings are the same, byte for byte.
pub fn same_bytes(left: &Vec<u8>, right: &Vec<u8>) -> (same: bool)
    ensures
        same == (left@ == right@),
{
    if left.len() != right.len() {
        return false;
    }
    let mut i: usize = 0;
    while i < left.len()
        invariant
            i <= left.len(),
            left.len() == right.len(),
            forall|k: int| 0 <= k < i ==> left[k] == right[k],
        decreases left.len() - i,
    {
        if left[i] != right[i] {
            return false;
        }
        i += 1;
    }
    assert(left@ =~= right@);
    true
}

/// Marks the transactions of a block whose input is exactly `code`.
pub fn matching_inputs(transactions: &Vec<Transaction>, code: &Vec<u8>) -> (matching: Vec<bool>)
    ensures
        matching@ == input_matches(transactions@, code@),
{
    let mut matching: Vec<bool> = Vec::new();
    let mut i: usize = 0;
    while i < transactions.len()
        invariant
            i <= transactions.len(),
            matching.len() == i,
            forall|k: int| 0 <= k < i ==> matching[k] == (transactions[k].input@ == code@),
        decreases transactions.len() - i,
    {
        matching.push(same_bytes(&transactions[i].input, code));
        i += 1;
    }
    assert(matching@ =~= input_matches(transactions@, code@));
    matching
}

/// The hashes under which the receipts of a block's transactions are asked for.
pub fn transaction_hashes(transactions: &Vec<Transaction>) -> (hashes: Vec<[u8; 32]>)
    ensures
        hashes@ == hashes_of(transactions@),
{
    let mut hashes: Vec<[u8; 32]> = Vec::new();
    let mut i: usize = 0;
    while i < transactions.len()
        invariant
            i <= transactions.len(),
            hashes.len() == i,
            forall|k: int| 0 <= k < i ==> hashes[k] == transactions[k].hash,
        decreases transactions.len() - i,
    {
        hashes.push(transactions[i].hash);
        i += 1;
    }
    assert(hashes@ =~= hashes_of(transactions@));
    hashes
}

/// A block as the chain holds it: its transactions, and for each of them
/// the receipt, where there is one.
pub struct BlockRecord {
    pub transactions: Seq<Transaction>,
    pub receipts: Seq<Option<Receipt>>,
}

/// The contract that a transaction created for us: its receipt names a
/// created contract, the receipt's sender is `sender`, and the
/// transaction's input is byte for byte `code`.
pub open spec fn deployment(
    transaction: Transaction,
    receipt: Option<Receipt>,
    sender: Address,
    code: Seq<u8>,
) -> Option<Address> {
    match receipt {
        Some(r) => if r.contract_address is Some && r.from == sender && transaction.input@ == code {
            r.contract_address
        } else {
            None
        },
        None => None,
    }
}

/// The contracts created for us by the first `count` transactions of a
/// block, in the order of the transactions.
pub open spec fn deployments_within(
    block: BlockRecord,
    count: nat,
    sender: Address,
    code: Seq<u8>,
) -> Seq<Address>
    decreases count,
{
    if count == 0 {
        Seq::empty()
    } else {
        let earlier = deployments_within(block, (count - 1) as nat, sender, code);
        match deployment(block.transactions[count - 1], block.receipts[count - 1], sender, code) {
            Some(address) => earlier.push(address),
            None => earlier,
        }
    }
}

/// The contracts created for us by a block, in the order of its transactions.
pub open spec fn deployments_in(block: BlockRecord, sender: Address, code: Seq<u8>) -> Seq<
    Address,
> {
    deployments_within(block, block.transactions.len(), sender, code)
}

/// The replies are what the chain answers for the block: one reply for each
/// transaction, in any order, each with the receipt the block holds.
pub open spec fn answers(replies: Seq<ReceiptReply>, block: BlockRecord) -> bool {
    &&& block.receipts.len() == block.transactions.len()
    &&& one_reply_each(replies, block.transactions.len() as int)
    &&& forall|j: int|
        0 <= j < replies.len() ==> (#[trigger] replies[j]).receipt
            == block.receipts[replies[j].index as int]
}

/// Replies that answer each of `count` positions at most once, and are
/// `count` in number, answer every position.
pub proof fn every_position_is_answered(replies: Seq<ReceiptReply>, count: int, index: int)
    requires
        one_reply_each(replies, count),
        0 <= index < count,
    ensures
        exists|j: int| 0 <= j < replies.len() && (#[trigger] replies[j]).index == index,
{
    let positions = Seq::new(replies.len(), |j: int| replies[j].index as int);
    assert(positions.no_duplicates()) by {
        assert forall|a: int, b: int|
            0 <= a < positions.len() && 0 <= b < positions.len() && a != b implies positions[a]
            != positions[b] by {
            if a < b {
                assert(replies[a].index != replies[b].index);
            } else {
                assert(replies[b].index != replies[a].index);
            }
        }
    }
    positions.unique_seq_to_set();
    lemma_int_range(0, count);
    let range = set_int_range(0, count);
    assert(positions.to_set().subset_of(range)) by {
        assert forall|x: int| positions.to_set().contains(x) implies range.contains(x) by {
            let j = choose|j: int| 0 <= j < positions.len() && positions[j] == x;
            assert(replies[j].index < count);
        }
    }
    lemma_len_subset(positions.to_set(), range);
    lemma_subset_equality(positions.to_set(), range);
    assert(range.contains(index));
    assert(positions.to_set().contains(index));
    let j = choose|j: int| 0 <= j < positions.len() && positions[j] == index;
    assert(replies[j].index == index);
}

/// The contracts found in a block depend on the replies only through the
/// receipt they hold for each transaction.
proof fn lemma_same_receipts(
    matching: Seq<bool>,
    first: Seq<ReceiptReply>,
    second: Seq<ReceiptReply>,
    sender: Address,
)
    requires
        forall|i: int| 0 <= i < matching.len() ==> receipt_for(first, i) == receipt_for(second, i),
    ensures
        block_deployments(matching, first, sender) == block_deployments(matching, second, sender),
    decreases matching.len(),
{
    if matching.len() > 0 {
        lemma_same_receipts(matching.drop_last(), first, second, sender);
    }
}

/// Whatever the order in which the receipts of a block arrive, the same
/// replies are accepted and the same contracts are found, in the same order.
pub proof fn receipt_order_is_irrelevant(
    matching: Seq<bool>,
    first: Seq<ReceiptReply>,
    second: Seq<ReceiptReply>,
    sender: Address,
)
    requires
        one_reply_each(first, matching.len() as int),
        first.to_multiset() == second.to_multiset(),
    ensures
        one_reply_each(second, matching.len() as int),
        block_deployments(matching, first, sender) == block_deployments(matching, second, sender),
{
    broadcast use {to_multiset_len, to_multiset_contains};

    let count = matching.len() as int;
    assert(second.len() == first.len()) by {
        assert(first.to_multiset().len() == first.len());
        assert(second.to_multiset().len() == second.len());
    }
    assert forall|x: ReceiptReply| first.contains(x) <==> second.contains(x) by {
        assert(first.contains(x) <==> first.to_multiset().count(x) > 0);
        assert(second.contains(x) <==> second.to_multiset().count(x) > 0);
    }
    assert(first.no_duplicates()) by {
        assert forall|a: int, b: int|
            0 <= a < first.len() && 0 <= b < first.len() && a != b implies first[a] != first[b] by {
            if a < b {
                assert(first[a].index != first[b].index);
            } else {
                assert(first[b].index != first[a].index);
            }
        }
    }
    first.lemma_multiset_has_no_duplicates();
    second.lemma_multiset_has_no_duplicates_conv();
    assert(one_reply_each(second, count)) by {
        assert forall|j: int| 0 <= j < second.len() implies (#[trigger] second[j]).index
            < count by {
            assert(second.contains(second[j]));
            let p = choose|p: int| 0 <= p < first.len() && first[p] == second[j];
            assert(first[p].index < count);
        }
        assert forall|j: int, k: int| 0 <= j < k < second.len() implies (
        #[trigger] second[j]).index != (#[trigger] second[k]).index by {
            assert(second.contains(second[j]));
            assert(second.contains(second[k]));
            let p = choose|p: int| 0 <= p < first.len() && first[p] == second[j];
            let q = choose|q: int| 0 <= q < first.len() && first[q] == second[k];
            if second[j].index == second[k].index {
                if p < q {
                    assert(first[p].index != first[q].index);
                } else if q < p {
                    assert(first[q].index != first[p].index);
                }
                assert(second[j] == second[k]);
            }
        }
    }
    assert forall|i: int| 0 <= i < matching.len() implies receipt_for(first, i) == receipt_for(
        second,
        i,
    ) by {
        every_position_is_answered(first, count, i);
        let p = choose|p: int| 0 <= p < first.len() && (#[trigger] first[p]).index == i;
        assert(first.contains(first[p]));
        let q = choose|q: int| 0 <= q < second.len() && second[q] == first[p];
        lemma_receipt_for_unique(first, count, p);
        lemma_receipt_for_unique(second, count, q);
    }
    lemma_same_receipts(matching, first, second, sender);
}

/// Replies that answer for a block lead to the contracts that the block's
/// transactions created for us, whatever the order of the replies.
pub proof fn replies_give_block_deployments(
    block: BlockRecord,
    replies: Seq<ReceiptReply>,
    sender: Address,
    code: Seq<u8>,
)
    requires
        answers(replies, block),
    ensures
        block_deployments(input_matches(block.transactions, code), replies, sender)
            == deployments_in(block, sender, code),
{
    let matching = input_matches(block.transactions, code);
    lemma_block_prefix(block, replies, sender, code, matching.len());
    assert(matching.take(matching.len() as int) =~= matching);
}

proof fn lemma_block_prefix(
    block: BlockRecord,
    replies: Seq<ReceiptReply>,
    sender: Address,
    code: Seq<u8>,
    count: nat,
)
    requires
        answers(replies, block),
        count <= block.transactions.len(),
    ensures
        block_deployments(
            input_matches(block.transactions, code).take(count as int),
            replies,
            sender,
        ) == deployments_within(block, count, sender, code),
    decreases count,
{
    let matching = input_matches(block.transactions, code);
    if count > 0 {
        let last = count - 1;
        lemma_block_prefix(block, replies, sender, code, last as nat);
        assert(matching.take(count as int).drop_last() =~= matching.take(last));
        every_position_is_answered(replies, block.transactions.len() as int, last);
        let j = choose|j: int| 0 <= j < replies.len() && (#[trigger] replies[j]).index == last;
        lemma_receipt_for_unique(replies, block.transactions.len() as int, j);
        assert(receipt_for(replies, last) == block.receipts[last]);
        assert(matching.take(count as int)[last] == (block.transactions[last].input@ == code));
    }
}

/// The contracts created for us in the blocks of a chain, by ascending
/// height and, within a block, in the order of its transactions. The block
/// at height `h` is `chain[h]`; the listing starts at the newest block and
/// reaches down to height 0, or to the first height at which the node has
/// no block.
pub open spec fn deployments(
    chain: Seq<Option<BlockRecord>>,
    sender: Address,
    code: Seq<u8>,
) -> Seq<Address>
    decreases chain.len(),
{
    if chain.len() == 0 {
        Seq::empty()
    } else {
        match chain.last() {
            Some(block) => deployments(chain.drop_last(), sender, code) + deployments_in(
                block,
                sender,
                code,
            ),
            None => Seq::empty(),
        }
    }
}

/// Whether the chain has a transaction at `index` of the block at `height`.
pub open spec fn has_transaction(chain: Seq<Option<BlockRecord>>, height: int, index: int) -> bool {
    &&& 0 <= height < chain.len()
    &&& chain[height] matches Some(block)
    &&& 0 <= index < block.transactions.len()
}

/// The contract that the transaction at `index` of the block at `height`
/// created for us.
pub open spec fn deployment_at(
    chain: Seq<Option<BlockRecord>>,
    height: int,
    index: int,
    sender: Address,
    code: Seq<u8>,
) -> Option<Address> {
    match chain[height] {
        Some(block) => deployment(block.transactions[index], block.receipts[index], sender, code),
        None => None,
    }
}

proof fn lemma_block_without_match(block: BlockRecord, count: nat, sender: Address, code: Seq<u8>)
    requires
        count <= block.transactions.len(),
        forall|i: int|
            0 <= i < count ==> deployment(
                #[trigger] block.transactions[i],
                block.receipts[i],
                sender,
                code,
            ) is None,
    ensures
        deployments_within(block, count, sender, code) == Seq::<Address>::empty(),
    decreases count,
{
    if count > 0 {
        lemma_block_without_match(block, (count - 1) as nat, sender, code);
        let last = count - 1;
        assert(deployment(block.transactions[last], block.receipts[last], sender, code) is None);
    }
}

proof fn lemma_block_with_one_match(
    block: BlockRecord,
    count: nat,
    index: int,
    address: Address,
    sender: Address,
    code: Seq<u8>,
)
    requires
        count <= block.transactions.len(),
        0 <= index < block.transactions.len(),
        deployment(block.transactions[index], block.receipts[index], sender, code) == Some(address),
        forall|i: int|
            0 <= i < count && i != index ==> deployment(
                #[trigger] block.transactions[i],
                block.receipts[i],
                sender,
                code,
            ) is None,
    ensures
        deployments_within(block, count, sender, code) == if index < count {
            seq![address]
        } else {
            Seq::<Address>::empty()
        },
    decreases count,
{
    if count > 0 {
        lemma_block_with_one_match(block, (count - 1) as nat, index, address, sender, code);
        if index != count - 1 {
            let last = count - 1;
        assert(deployment(block.transactions[last], block.receipts[last], sender, code) is None);
        } else {
            assert(Seq::<Address>::empty().push(address) =~= seq![address]);
        }
    }
}

/// A chain in which no transaction created a contract for us lists none.
pub proof fn no_match_lists_nothing(chain: Seq<Option<BlockRecord>>, sender: Address, code: Seq<u8>)
    requires
        forall|height: int, index: int|
            has_transaction(chain, height, index) ==> #[trigger] deployment_at(
                chain,
                height,
                index,
                sender,
                code,
            ) is None,
    ensures
        deployments(chain, sender, code) == Seq::<Address>::empty(),
    decreases chain.len(),
{
    if chain.len() > 0 {
        let below = chain.drop_last();
        assert forall|height: int, index: int| has_transaction(below, height, index) implies (
        #[trigger] deployment_at(below, height, index, sender, code)) is None by {
            assert(has_transaction(chain, height, index));
            assert(deployment_at(chain, height, index, sender, code) is None);
        }
        no_match_lists_nothing(below, sender, code);
        if let Some(block) = chain.last() {
            let top = chain.len() - 1;
            assert forall|i: int| 0 <= i < block.transactions.len() implies deployment(
                #[trigger] block.transactions[i],
                block.receipts[i],
                sender,
                code,
            ) is None by {
                assert(has_transaction(chain, top, i));
                assert(deployment_at(chain, top, i, sender, code) is None);
            }
            lemma_block_without_match(block, block.transactions.len(), sender, code);
        }
    }
}

/// A chain without gaps in which exactly one transaction created a
/// contract for us lists that contract, and nothing else.
pub proof fn single_match_lists_one(
    chain: Seq<Option<BlockRecord>>,
    sender: Address,
    code: Seq<u8>,
    at_height: int,
    at_index: int,
    address: Address,
)
    requires
        forall|height: int| 0 <= height < chain.len() ==> (#[trigger] chain[height]) is Some,
        has_transaction(chain, at_height, at_index),
        deployment_at(chain, at_height, at_index, sender, code) == Some(address),
        forall|height: int, index: int|
            has_transaction(chain, height, index) && (height != at_height || index != at_index)
                ==> #[trigger] deployment_at(chain, height, index, sender, code) is None,
    ensures
        deployments(chain, sender, code) == seq![address],
    decreases chain.len(),
{
    let top = chain.len() - 1;
    let below = chain.drop_last();
    let block = chain.last()->0;
    assert(chain[top] is Some);
    if at_height == top {
        assert forall|height: int, index: int| has_transaction(below, height, index) implies (
        #[trigger] deployment_at(below, height, index, sender, code)) is None by {
            assert(has_transaction(chain, height, index));
            assert(deployment_at(chain, height, index, sender, code) is None);
        }
        no_match_lists_nothing(below, sender, code);
        assert forall|i: int|
            0 <= i < block.transactions.len() && i != at_index implies deployment(
            #[trigger] block.transactions[i],
            block.receipts[i],
            sender,
            code,
        ) is None by {
            assert(has_transaction(chain, top, i));
            assert(deployment_at(chain, top, i, sender, code) is None);
        }
        lemma_block_with_one_match(
            block,
            block.transactions.len(),
            at_index,
            address,
            sender,
            code,
        );
        assert(Seq::<Address>::empty() + seq![address] =~= seq![address]);
    } else {
        assert forall|height: int, index: int|
            has_transaction(below, height, index) && (height != at_height || index
                != at_index) implies (#[trigger] deployment_at(
            below,
            height,
            index,
            sender,
            code,
        )) is None by {
            assert(has_transaction(chain, height, index));
            assert(deployment_at(chain, height, index, sender, code) is None);
        }
        assert(has_transaction(below, at_height, at_index));
        assert(deployment_at(below, at_height, at_index, sender, code) == Some(address));
        single_match_lists_one(below, sender, code, at_height, at_index, address);
        assert forall|i: int| 0 <= i < block.transactions.len() implies deployment(
            #[trigger] block.transactions[i],
            block.receipts[i],
            sender,
            code,
        ) is None by {
            assert(has_transaction(chain, top, i));
            assert(deployment_at(chain, top, i, sender, code) is None);
        }
        lemma_block_without_match(block, block.transactions.len(), sender, code);
        assert(seq![address] + Seq::<Address>::empty() =~= seq![address]);
    }
}

} // verus!
