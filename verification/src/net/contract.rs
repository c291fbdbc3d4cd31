//! Creating the contract and finding the contracts created before, each as
//! a sequence of decisions between the requests made of the chain.

use crate::cli::ListContext;
use crate::net::chain::h256_from_str;
use crate::net::chain::h256_of_text;
use crate::net::chain::internal_fault;
use crate::net::chain::internal_fault_text;
use crate::net::chain::Address;
use crate::net::chain::ReceiptReply;
use crate::net::chain::Transaction;
use crate::net::error::Error;
use crate::net::error::ErrorView;
use crate::net::hexcode::creation_code;
use crate::net::hexcode::expected_code;
use crate::net::hexcode::hex_bytes;
use crate::net::hexcode::hex_fault_text;
use crate::net::hexcode::is_hex_text;
use crate::net::hexcode::is_prefixed;
use crate::net::payload::ContentRef;
use crate::net::scan::answers;
use crate::net::scan::block_deployments;
use crate::net::scan::block_matches;
use crate::net::scan::deployment_at;
use crate::net::scan::deployments;
use crate::net::scan::deployments_in;
use crate::net::scan::has_transaction;
use crate::net::scan::hashes_of;
use crate::net::scan::input_matches;
use crate::net::scan::matching_inputs;
use crate::net::scan::no_match_lists_nothing;
use crate::net::scan::one_reply_each;
use crate::net::scan::replies_give_block_deployments;
use crate::net::scan::single_match_lists_one;
use crate::net::scan::transaction_hashes;
use crate::net::scan::BlockRecord;
use crate::net::signing::secret_key_from_str;
use crate::net::signing::secret_key_read;
use vstd::prelude::*;
use vstd::string::*;

verus! {

/// A compiled contract as the build leaves it: the creation bytecode as
/// hexadecimal text after `0x`, and the interface description as JSON.
#[derive(Debug, Clone, PartialEq, Eq)]
pub struct DeployableContract {
    pub bytecode: String,
    pub abi: Vec<u8>,
}

/// Where the build artifact lies under the contracts directory.
pub open spec fn artifact_path(contracts_dir: Seq<char>) -> Seq<char> {
    contracts_dir + "/contracts/Idea.sol/Idea.json"@
}

/// The path of the build artifact under the contracts directory.
pub fn artifact_file(contracts_dir: &str) -> (path: String)
    ensures
        path@ == artifact_path(contracts_dir@),
{
    String::from_str(contracts_dir).concat("/contracts/Idea.sol/Idea.json")
}

/// How far a listing has come: what it has asked for and waits to hear.
#[derive(Debug, Clone, Copy, PartialEq, Eq, Structural)]
pub enum ListStage {
    /// Nothing has been asked yet.
    Start,
    /// The build artifact.
    Artifact,
    /// The address of the account that signs.
    Account,
    /// The height of the newest block.
    Head,
    /// The block at `height`.
    Block { height: u64 },
    /// The receipts of the block at `height`.
    Receipts { height: u64 },
    /// Nothing more: the listing has ended.
    Done,
}

/// A listing of the contracts created before, between two requests.
#[derive(Debug, Clone)]
pub struct Listing {
    pub private_key: String,
    pub contracts_dir: String,
    pub stage: ListStage,
    /// The creation code that a transaction of ours carries as its input.
    pub bytecode: Vec<u8>,
    /// The account whose transactions are looked for.
    pub sender: Address,
    /// For the block whose receipts are awaited: which of its transactions
    /// carry the creation code.
    pub matching: Vec<bool>,
    /// The contracts found so far, by ascending height.
    pub deployed: Vec<Address>,
}

/// A [`Listing`] as mathematical values.
pub struct ListingView {
    pub private_key: Seq<char>,
    pub contracts_dir: Seq<char>,
    pub stage: ListStage,
    pub bytecode: Seq<u8>,
    pub sender: Address,
    pub matching: Seq<bool>,
    pub deployed: Seq<Address>,
}

impl View for Listing {
    type V = ListingView;

    open spec fn view(&self) -> ListingView {
        ListingView {
            private_key: self.private_key@,
            contracts_dir: self.contracts_dir@,
            stage: self.stage,
            bytecode: self.bytecode@,
            sender: self.sender,
            matching: self.matching@,
            deployed: self.deployed@,
        }
    }
}

/// What came back from the last request of a listing.
#[derive(Debug, Clone)]
pub enum ListReply {
    /// Nothing yet: the listing is to begin.
    Begin,
    /// The build artifact was read.
    Artifact(DeployableContract),
    /// The node knows the signing account under this address.
    Account(Address),
    /// The height of the newest block.
    Head(u64),
    /// The transactions of the block asked for, or nothing where the node
    /// has no such block.
    Block(Option<Vec<Transaction>>),
    /// The receipts asked for, in the order in which they arrived.
    Receipts(Vec<ReceiptReply>),
    /// The request failed.
    Failure(Error),
}

/// What a listing asks for next, or how it ends.
#[derive(Debug, Clone)]
pub enum ListRequest {
    /// Read and parse the build artifact at `path`.
    LoadArtifact { path: String },
    /// Ask the node for the account of the key `secret`.
    ImportAccount { secret: [u8; 32] },
    /// Ask for the height of the newest block.
    BlockNumber,
    /// Ask for the block at `height`, with its transactions.
    BlockWithTxs { height: u64 },
    /// Ask for the receipt of each of these transactions.
    TransactionReceipts { hashes: Vec<[u8; 32]> },
    /// The listing is complete.
    Finish { deployed: Vec<Address> },
    /// The listing failed.
    Abort { error: Error },
}

/// A [`ListRequest`] as mathematical values.
pub enum ListRequestView {
    LoadArtifact { path: Seq<char> },
    ImportAccount { secret: Seq<u8> },
    BlockNumber,
    BlockWithTxs { height: u64 },
    TransactionReceipts { hashes: Seq<[u8; 32]> },
    Finish { deployed: Seq<Address> },
    Abort { error: ErrorView },
}

impl View for ListRequest {
    type V = ListRequestView;

    open spec fn view(&self) -> ListRequestView {
        match *self {
            ListRequest::LoadArtifact { path } => ListRequestView::LoadArtifact { path: path@ },
            ListRequest::ImportAccount { secret } => ListRequestView::ImportAccount {
                secret: secret@,
            },
            ListRequest::BlockNumber => ListRequestView::BlockNumber,
            ListRequest::BlockWithTxs { height } => ListRequestView::BlockWithTxs { height },
            ListRequest::TransactionReceipts { hashes } => ListRequestView::TransactionReceipts {
                hashes: hashes@,
            },
            ListRequest::Finish { deployed } => ListRequestView::Finish { deployed: deployed@ },
            ListRequest::Abort { error } => ListRequestView::Abort { error: error@ },
        }
    }
}

impl ListingView {
    /// The listing ends in failure.
    pub open spec fn stop(self, error: ErrorView) -> (ListingView, ListRequestView) {
        (ListingView { stage: ListStage::Done, ..self }, ListRequestView::Abort { error })
    }

    /// The listing begins: the build artifact is asked for.
    pub open spec fn begin(self) -> (ListingView, ListRequestView) {
        (
            ListingView { stage: ListStage::Artifact, ..self },
            ListRequestView::LoadArtifact { path: artifact_path(self.contracts_dir) },
        )
    }

    /// The creation code is known and the signing key was read: the key's
    /// account is asked for, unless the key is no 32-byte word.
    pub open spec fn with_code(self, code: Seq<u8>, secret: Option<Seq<u8>>) -> (
        ListingView,
        ListRequestView,
    ) {
        match secret {
            Some(word) => (
                ListingView { stage: ListStage::Account, bytecode: code, ..self },
                ListRequestView::ImportAccount { secret: word },
            ),
            None => self.stop(ErrorView::Web3(internal_fault())),
        }
    }

    /// The sender is known: the height of the newest block is asked for.
    pub open spec fn with_account(self, sender: Address) -> (ListingView, ListRequestView) {
        (ListingView { stage: ListStage::Head, sender, ..self }, ListRequestView::BlockNumber)
    }

    /// The newest block's height is known: that block is asked for.
    pub open spec fn with_head(self, height: u64) -> (ListingView, ListRequestView) {
        (
            ListingView { stage: ListStage::Block { height }, ..self },
            ListRequestView::BlockWithTxs { height },
        )
    }

    /// The block at `height` came back: its receipts are asked for. Where
    /// the node has no such block, the listing ends with what was found
    /// above it.
    pub open spec fn with_block(self, height: u64, block: Option<Seq<Transaction>>) -> (
        ListingView,
        ListRequestView,
    ) {
        match block {
            Some(transactions) => (
                ListingView {
                    stage: ListStage::Receipts { height },
                    matching: input_matches(transactions, self.bytecode),
                    ..self
                },
                ListRequestView::TransactionReceipts { hashes: hashes_of(transactions) },
            ),
            None => (
                ListingView { stage: ListStage::Done, ..self },
                ListRequestView::Finish { deployed: self.deployed },
            ),
        }
    }

    /// The receipts of the block at `height` came back: its contracts are
    /// put before those of the blocks above, and the block below is asked
    /// for, or the listing ends at height 0.
    pub open spec fn with_receipts(self, height: u64, replies: Seq<ReceiptReply>) -> (
        ListingView,
        ListRequestView,
    ) {
        if one_reply_each(replies, self.matching.len() as int) {
            let deployed = block_deployments(self.matching, replies, self.sender) + self.deployed;
            if height == 0 {
                (
                    ListingView { stage: ListStage::Done, deployed, ..self },
                    ListRequestView::Finish { deployed },
                )
            } else {
                (
                    ListingView {
                        stage: ListStage::Block { height: (height - 1) as u64 },
                        deployed,
                        ..self
                    },
                    ListRequestView::BlockWithTxs { height: (height - 1) as u64 },
                )
            }
        } else {
            self.stop(ErrorView::Web3("receipts do not answer the block"@))
        }
    }

    /// A reply that the stage did not ask for ends the listing.
    pub open spec fn out_of_turn(self) -> (ListingView, ListRequestView) {
        self.stop(ErrorView::Web3("reply out of turn"@))
    }
}

impl Listing {
    /// A listing that has asked for nothing yet.
    pub fn new(context: ListContext) -> (state: Listing)
        ensures
            state@.private_key == context.private_key@,
            state@.contracts_dir == context.contracts_dir@,
            state@.stage == ListStage::Start,
            state@.bytecode == Seq::<u8>::empty(),
            state@.sender.is_zero(),
            state@.matching == Seq::<bool>::empty(),
            state@.deployed == Seq::<Address>::empty(),
    {
        Listing {
            private_key: context.private_key,
            contracts_dir: context.contracts_dir,
            stage: ListStage::Start,
            bytecode: Vec::new(),
            sender: Address::zero(),
            matching: Vec::new(),
            deployed: Vec::new(),
        }
    }

    /// Ends the listing in failure.
    pub fn stop(self, error: Error) -> (step: (Listing, ListRequest))
        ensures
            (step.0@, step.1@) == self@.stop(error@),
    {
        (Listing { stage: ListStage::Done, ..self }, ListRequest::Abort { error })
    }

    /// Begins the listing by asking for the build artifact.
    pub fn begin(self) -> (step: (Listing, ListRequest))
        ensures
            (step.0@, step.1@) == self@.begin(),
    {
        let path = artifact_file(self.contracts_dir.as_str());
        (Listing { stage: ListStage::Artifact, ..self }, ListRequest::LoadArtifact { path })
    }

    /// Takes the creation code and the word read from the signing key, and
    /// asks for the key's account.
    pub fn with_code(self, code: Vec<u8>, secret: Option<[u8; 32]>) -> (step: (
        Listing,
        ListRequest,
    ))
        ensures
            (step.0@, step.1@) == self@.with_code(
                code@,
                match secret {
                    Some(word) => Some(word@),
                    None => None,
                },
            ),
    {
        match secret {
            Some(word) => (
                Listing { stage: ListStage::Account, bytecode: code, ..self },
                ListRequest::ImportAccount { secret: word },
            ),
            None => self.stop(Error::Web3(internal_fault_text())),
        }
    }

    /// Takes the sender's address, and asks for the newest block's height.
    pub fn with_account(self, sender: Address) -> (step: (Listing, ListRequest))
        ensures
            (step.0@, step.1@) == self@.with_account(sender),
    {
        (Listing { stage: ListStage::Head, sender, ..self }, ListRequest::BlockNumber)
    }

    /// Takes the newest block's height, and asks for that block.
    pub fn with_head(self, height: u64) -> (step: (Listing, ListRequest))
        ensures
            (step.0@, step.1@) == self@.with_head(height),
    {
        (
            Listing { stage: ListStage::Block { height }, ..self },
            ListRequest::BlockWithTxs { height },
        )
    }

    /// Takes the block at `height`, and asks for its receipts.
    pub fn with_block(self, height: u64, block: Option<Vec<Transaction>>) -> (step: (
        Listing,
        ListRequest,
    ))
        ensures
            (step.0@, step.1@) == self@.with_block(
                height,
                match block {
                    Some(transactions) => Some(transactions@),
                    None => None,
                },
            ),
    {
        match block {
            Some(transactions) => {
                let matching = matching_inputs(&transactions, &self.bytecode);
                let hashes = transaction_hashes(&transactions);
                (
                    Listing { stage: ListStage::Receipts { height }, matching, ..self },
                    ListRequest::TransactionReceipts { hashes },
                )
            },
            None => {
                let deployed = self.deployed.clone();
                (Listing { stage: ListStage::Done, ..self }, ListRequest::Finish { deployed })
            },
        }
    }

    /// Ends the listing on a reply that the stage did not ask for.
    pub fn out_of_turn(self) -> (step: (Listing, ListRequest))
        ensures
            (step.0@, step.1@) == self@.out_of_turn(),
    {
        self.stop(Error::Web3(String::from_str("reply out of turn")))
    }

    /// Takes the receipts of the block at `height`, and asks for the block
    /// below it.
    pub fn with_receipts(self, height: u64, replies: Vec<ReceiptReply>) -> (step: (
        Listing,
        ListRequest,
    ))
        ensures
            (step.0@, step.1@) == self@.with_receipts(height, replies@),
    {
        match block_matches(&self.matching, &replies, &self.sender) {
            Some(found) => {
                let mut deployed = found;
                let mut above = self.deployed;
                deployed.append(&mut above);
                if height == 0 {
                    let listed = deployed.clone();
                    (
                        Listing {
                            private_key: self.private_key,
                            contracts_dir: self.contracts_dir,
                            stage: ListStage::Done,
                            bytecode: self.bytecode,
                            sender: self.sender,
                            matching: self.matching,
                            deployed,
                        },
                        ListRequest::Finish { deployed: listed },
                    )
                } else {
                    (
                        Listing {
                            private_key: self.private_key,
                            contracts_dir: self.contracts_dir,
                            stage: ListStage::Block { height: height - 1 },
                            bytecode: self.bytecode,
                            sender: self.sender,
                            matching: self.matching,
                            deployed,
                        },
                        ListRequest::BlockWithTxs { height: height - 1 },
                    )
                }
            },
            None => self.stop(Error::Web3(String::from_str("receipts do not answer the block"))),
        }
    }
}

/// The view of a block that came back, or of its absence.
pub open spec fn block_view(block: Option<Vec<Transaction>>) -> Option<Seq<Transaction>> {
    match block {
        Some(transactions) => Some(transactions@),
        None => None,
    }
}

/// What `list` does with a reply: the listing it leaves and the request
/// it makes.
pub open spec fn list_allows(
    state: ListingView,
    reply: ListReply,
    next: ListingView,
    request: ListRequestView,
) -> bool {
    match reply {
        ListReply::Failure(error) => (next, request) == state.stop(error@),
        ListReply::Begin => (next, request) == if state.stage == ListStage::Start {
            state.begin()
        } else {
            state.out_of_turn()
        },
        ListReply::Artifact(artifact) => if state.stage != ListStage::Artifact {
            (next, request) == state.out_of_turn()
        } else if !is_prefixed(artifact.bytecode@) {
            (next, request) == state.stop(ErrorView::InvalidInput)
        } else if !is_hex_text(artifact.bytecode@.skip(2)) {
            (next, request) == state.stop(
                ErrorView::Serialization(hex_fault_text(artifact.bytecode@.skip(2))),
            )
        } else {
            (next, request) == state.with_code(
                hex_bytes(artifact.bytecode@.skip(2)),
                h256_of_text(state.private_key),
            )
        },
        ListReply::Account(sender) => (next, request) == if state.stage == ListStage::Account {
            state.with_account(sender)
        } else {
            state.out_of_turn()
        },
        ListReply::Head(height) => (next, request) == if state.stage == ListStage::Head {
            state.with_head(height)
        } else {
            state.out_of_turn()
        },
        ListReply::Block(block) => (next, request) == match state.stage {
            ListStage::Block { height } => state.with_block(height, block_view(block)),
            _ => state.out_of_turn(),
        },
        ListReply::Receipts(replies) => (next, request) == match state.stage {
            ListStage::Receipts { height } => state.with_receipts(height, replies@),
            _ => state.out_of_turn(),
        },
    }
}

/// Gets a list of the addresses of contracts deployed before, one step at
/// a time: takes what came back from the last request and says what to ask
/// for next. The listing reads the build artifact, asks for the account of
/// the signing key, then walks the blocks from the newest down to height 0,
/// and for each block asks for the receipts of all its transactions.
pub fn list(state: Listing, reply: ListReply) -> (step: (Listing, ListRequest))
    ensures
        list_allows(state@, reply, step.0@, step.1@),
{
    match reply {
        ListReply::Failure(error) => state.stop(error),
        ListReply::Begin => match state.stage {
            ListStage::Start => state.begin(),
            _ => state.out_of_turn(),
        },
        ListReply::Artifact(artifact) => match state.stage {
            ListStage::Artifact => match expected_code(artifact.bytecode.as_str()) {
                Ok(code) => {
                    let secret = h256_from_str(state.private_key.as_str());
                    state.with_code(code, secret)
                },
                Err(error) => state.stop(error),
            },
            _ => state.out_of_turn(),
        },
        ListReply::Account(sender) => match state.stage {
            ListStage::Account => state.with_account(sender),
            _ => state.out_of_turn(),
        },
        ListReply::Head(height) => match state.stage {
            ListStage::Head => state.with_head(height),
            _ => state.out_of_turn(),
        },
        ListReply::Block(block) => match state.stage {
            ListStage::Block { height } => state.with_block(height, block),
            _ => state.out_of_turn(),
        },
        ListReply::Receipts(replies) => match state.stage {
            ListStage::Receipts { height } => state.with_receipts(height, replies),
            _ => state.out_of_turn(),
        },
    }
}

/// The request in which a listing ends when the chain answers for every
/// block from `height` down: `chain[h]` is the block at height `h`, and
/// `arrivals[h]` holds its receipts in the order in which they arrive.
pub open spec fn replay(
    state: ListingView,
    chain: Seq<Option<BlockRecord>>,
    arrivals: Seq<Seq<ReceiptReply>>,
    height: nat,
) -> ListRequestView
    decreases height,
{
    match chain[height as int] {
        Some(block) => {
            let awaiting = state.with_block(height as u64, Some(block.transactions)).0;
            let (next, request) = awaiting.with_receipts(height as u64, arrivals[height as int]);
            if height == 0 {
                request
            } else {
                replay(next, chain, arrivals, (height - 1) as nat)
            }
        },
        None => state.with_block(height as u64, None).1,
    }
}

/// A listing that walks a chain from `height` down ends with the contracts
/// that the chain's transactions created for the sender, by ascending
/// height, put before those it had found above. The order in which the
/// receipts of a block arrive does not matter, so two listings of an
/// unchanged chain end alike.
pub proof fn listing_finds_every_deployment(
    state: ListingView,
    chain: Seq<Option<BlockRecord>>,
    arrivals: Seq<Seq<ReceiptReply>>,
    height: nat,
)
    requires
        height < chain.len(),
        height <= u64::MAX,
        arrivals.len() == chain.len(),
        forall|h: int|
            0 <= h <= height ==> (#[trigger] chain[h] matches Some(block) ==> answers(
                arrivals[h],
                block,
            )),
    ensures
        replay(state, chain, arrivals, height) == (ListRequestView::Finish {
            deployed: deployments(chain.take(height as int + 1), state.sender, state.bytecode)
                + state.deployed,
        }),
    decreases height,
{
    let upto = chain.take(height as int + 1);
    assert(upto.last() == chain[height as int]);
    assert(upto.drop_last() =~= chain.take(height as int));
    match chain[height as int] {
        Some(block) => {
            let awaiting = state.with_block(height as u64, Some(block.transactions)).0;
            let (next, request) = awaiting.with_receipts(height as u64, arrivals[height as int]);
            assert(answers(arrivals[height as int], block));
            replies_give_block_deployments(
                block,
                arrivals[height as int],
                state.sender,
                state.bytecode,
            );
            let here = deployments_in(block, state.sender, state.bytecode);
            assert(next.deployed == here + state.deployed);
            if height == 0 {
                assert(chain.take(0) =~= Seq::<Option<BlockRecord>>::empty());
                assert(deployments(chain.take(0), state.sender, state.bytecode) + here =~= here);
            } else {
                listing_finds_every_deployment(next, chain, arrivals, (height - 1) as nat);
                let below = deployments(chain.take(height as int), state.sender, state.bytecode);
                assert(below + (here + state.deployed) =~= (below + here) + state.deployed);
            }
        },
        None => {
            assert(Seq::<Address>::empty() + state.deployed =~= state.deployed);
        },
    }
}

/// A listing from its start: with a build artifact whose bytecode is
/// `0x` and then hexadecimal digits, a signing key that the node knows as
/// `sender`, and a chain whose newest block is the last of `chain`, the
/// listing ends with the contracts that the chain's transactions created
/// for `sender` with exactly the artifact's creation code as input, by
/// ascending height.
pub proof fn listing_of_a_chain(
    start: ListingView,
    bytecode: Seq<char>,
    sender: Address,
    chain: Seq<Option<BlockRecord>>,
    arrivals: Seq<Seq<ReceiptReply>>,
)
    requires
        start.deployed.len() == 0,
        is_prefixed(bytecode),
        is_hex_text(bytecode.skip(2)),
        h256_of_text(start.private_key) is Some,
        0 < chain.len() <= u64::MAX,
        arrivals.len() == chain.len(),
        forall|h: int|
            0 <= h < chain.len() ==> (#[trigger] chain[h] matches Some(block) ==> answers(
                arrivals[h],
                block,
            )),
    ensures
        ({
            let code = hex_bytes(bytecode.skip(2));
            let head = (chain.len() - 1) as u64;
            let asked = start.begin().0;
            let keyed = asked.with_code(code, h256_of_text(start.private_key)).0;
            let known = keyed.with_account(sender).0;
            let walking = known.with_head(head).0;
            &&& walking.stage == ListStage::Block { height: head }
            &&& replay(walking, chain, arrivals, head as nat) == (ListRequestView::Finish {
                deployed: deployments(chain, sender, code),
            })
        }),
{
    let code = hex_bytes(bytecode.skip(2));
    let head = (chain.len() - 1) as u64;
    let walking = start.begin().0.with_code(code, h256_of_text(start.private_key)).0.with_account(
        sender,
    ).0.with_head(head).0;
    listing_finds_every_deployment(walking, chain, arrivals, head as nat);
    assert(chain.take(head as int + 1) =~= chain);
    assert(deployments(chain, sender, code) + walking.deployed =~= deployments(
        chain,
        sender,
        code,
    ));
}

/// A listing that has found nothing yet, and walks from the newest block
/// down a chain without gaps in which exactly one transaction created a
/// contract for the sender with the expected code, ends with that
/// contract's address and no other.
pub proof fn listing_of_a_single_match(
    state: ListingView,
    chain: Seq<Option<BlockRecord>>,
    arrivals: Seq<Seq<ReceiptReply>>,
    at_height: int,
    at_index: int,
    address: Address,
)
    requires
        0 < chain.len() <= u64::MAX,
        arrivals.len() == chain.len(),
        state.deployed.len() == 0,
        forall|h: int|
            0 <= h < chain.len() ==> (#[trigger] chain[h]) is Some && answers(
                arrivals[h],
                chain[h]->0,
            ),
        has_transaction(chain, at_height, at_index),
        deployment_at(chain, at_height, at_index, state.sender, state.bytecode) == Some(address),
        forall|height: int, index: int|
            has_transaction(chain, height, index) && (height != at_height || index != at_index)
                ==> #[trigger] deployment_at(chain, height, index, state.sender, state.bytecode)
                is None,
    ensures
        replay(state, chain, arrivals, (chain.len() - 1) as nat) == (ListRequestView::Finish {
            deployed: seq![address],
        }),
{
    let head = (chain.len() - 1) as nat;
    listing_finds_every_deployment(state, chain, arrivals, head);
    assert(chain.take(head as int + 1) =~= chain);
    single_match_lists_one(chain, state.sender, state.bytecode, at_height, at_index, address);
    assert(seq![address] + state.deployed =~= seq![address]);
}

/// A listing that has found nothing yet, and walks from the newest block
/// down a chain in which no transaction created a contract for the sender
/// with the expected code, ends with an empty list.
pub proof fn listing_without_match(
    state: ListingView,
    chain: Seq<Option<BlockRecord>>,
    arrivals: Seq<Seq<ReceiptReply>>,
)
    requires
        0 < chain.len() <= u64::MAX,
        arrivals.len() == chain.len(),
        state.deployed.len() == 0,
        forall|h: int|
            0 <= h < chain.len() ==> (#[trigger] chain[h] matches Some(block) ==> answers(
                arrivals[h],
                block,
            )),
        forall|height: int, index: int|
            has_transaction(chain, height, index) ==> #[trigger] deployment_at(
                chain,
                height,
                index,
                state.sender,
                state.bytecode,
            ) is None,
    ensures
        replay(state, chain, arrivals, (chain.len() - 1) as nat) == (ListRequestView::Finish {
            deployed: Seq::empty(),
        }),
{
    let head = (chain.len() - 1) as nat;
    listing_finds_every_deployment(state, chain, arrivals, head);
    assert(chain.take(head as int + 1) =~= chain);
    no_match_lists_nothing(chain, state.sender, state.bytecode);
    assert(Seq::<Address>::empty() + state.deployed =~= Seq::<Address>::empty());
}

/// The name of the DAO, and the title of its metadata.
pub const DEFAULT_NAME: &'static str = "Vision DAO";

/// The description in the DAO's metadata.
pub const DEFAULT_DESCRIPTION: &'static str =
    "The Vision DAO is a DAO that governs the Beacon DAO layer of the Vision ecosystem.";

/// The symbol of the DAO's token.
pub const DEFAULT_SYMBOL: &'static str = "VIS";

/// The initial supply of the DAO's token: a million tokens of 18 decimals.
pub const DEFAULT_SUPPLY: u128 = 1_000_000_000_000_000_000_000_000;

/// The gas limit of the creation transaction.
pub const GAS_LIMIT: u64 = 4_000_000;

/// The gas price of the creation transaction.
pub const GAS_PRICE: u64 = 2_000_000_000;

/// The number of blocks that must follow the creation before it counts,
/// unless the deployment is told another number.
pub const CONFIRMATIONS: usize = 2;

/// Everything that the creation transaction is made of. The constructor
/// takes `name`, `symbol`, `supply` and `metadata`, in this order.
#[derive(Debug, Clone, PartialEq, Eq)]
pub struct Creation {
    /// The contract's interface description, as JSON.
    pub abi: Vec<u8>,
    /// The creation code as hexadecimal text, without `0x`.
    pub code: String,
    pub name: String,
    pub symbol: String,
    pub supply: u128,
    /// The identifier of the metadata's root document.
    pub metadata: String,
    /// The key that signs the transaction.
    pub secret: [u8; 32],
    pub chain_id: u64,
    pub gas: u64,
    pub gas_price: u64,
    pub confirmations: usize,
}

/// A [`Creation`] as mathematical values.
pub struct CreationView {
    pub abi: Seq<u8>,
    pub code: Seq<char>,
    pub name: Seq<char>,
    pub symbol: Seq<char>,
    pub supply: u128,
    pub metadata: Seq<char>,
    pub secret: Seq<u8>,
    pub chain_id: u64,
    pub gas: u64,
    pub gas_price: u64,
    pub confirmations: usize,
}

impl View for Creation {
    type V = CreationView;

    open spec fn view(&self) -> CreationView {
        CreationView {
            abi: self.abi@,
            code: self.code@,
            name: self.name@,
            symbol: self.symbol@,
            supply: self.supply,
            metadata: self.metadata@,
            secret: self.secret@,
            chain_id: self.chain_id,
            gas: self.gas,
            gas_price: self.gas_price,
            confirmations: self.confirmations,
        }
    }
}

/// How far a deployment has come: what it has asked for and waits to hear.
#[derive(Debug, Clone, Copy, PartialEq, Eq, Structural)]
pub enum DeployStage {
    /// Nothing has been asked yet.
    Start,
    /// The build artifact.
    Artifact,
    /// The root of the published metadata.
    Metadata,
    /// The address of the created contract.
    Execution,
    /// Nothing more: the deployment has ended.
    Done,
}

/// A deployment of the DAO, between two requests.
#[derive(Debug, Clone)]
pub struct Deployment {
    pub private_key: String,
    pub contracts_dir: String,
    pub eth_chain_id: u64,
    /// The number of blocks that must follow the creation before it
    /// counts; none at all suits a local chain.
    pub confirmations: usize,
    pub stage: DeployStage,
    /// The signing key, once it was read.
    pub secret: [u8; 32],
    /// The artifact's bytecode, once it was loaded.
    pub bytecode: String,
    /// The artifact's interface description, once it was loaded.
    pub abi: Vec<u8>,
}

/// A [`Deployment`] as mathematical values.
pub struct DeploymentView {
    pub private_key: Seq<char>,
    pub contracts_dir: Seq<char>,
    pub eth_chain_id: u64,
    pub confirmations: usize,
    pub stage: DeployStage,
    pub secret: Seq<u8>,
    pub bytecode: Seq<char>,
    pub abi: Seq<u8>,
}

impl View for Deployment {
    type V = DeploymentView;

    open spec fn view(&self) -> DeploymentView {
        DeploymentView {
            private_key: self.private_key@,
            contracts_dir: self.contracts_dir@,
            eth_chain_id: self.eth_chain_id,
            confirmations: self.confirmations,
            stage: self.stage,
            secret: self.secret@,
            bytecode: self.bytecode@,
            abi: self.abi@,
        }
    }
}

/// What came back from the last request of a deployment.
#[derive(Debug, Clone)]
pub enum DeployReply {
    /// Nothing yet: the deployment is to begin.
    Begin,
    /// The build artifact was read.
    Artifact(DeployableContract),
    /// The metadata was published under this root.
    Metadata(ContentRef),
    /// The contract was created and confirmed at this address.
    Deployed(Address),
    /// The request failed.
    Failure(Error),
}

/// What a deployment asks for next, or how it ends.
#[derive(Debug, Clone)]
pub enum DeployRequest {
    /// Read and parse the build artifact at `path`.
    LoadArtifact { path: String },
    /// Publish the metadata with this title and description.
    PublishMetadata { title: String, description: String },
    /// Sign and send the creation transaction, and wait until it is confirmed.
    Execute { creation: Creation },
    /// The contract stands at `address`.
    Finish { address: Address },
    /// The deployment failed.
    Abort { error: Error },
}

/// A [`DeployRequest`] as mathematical values.
pub enum DeployRequestView {
    LoadArtifact { path: Seq<char> },
    PublishMetadata { title: Seq<char>, description: Seq<char> },
    Execute { creation: CreationView },
    Finish { address: Address },
    Abort { error: ErrorView },
}

impl View for DeployRequest {
    type V = DeployRequestView;

    open spec fn view(&self) -> DeployRequestView {
        match *self {
            DeployRequest::LoadArtifact { path } => DeployRequestView::LoadArtifact { path: path@ },
            DeployRequest::PublishMetadata { title, description } => {
                DeployRequestView::PublishMetadata { title: title@, description: description@ }
            },
            DeployRequest::Execute { creation } => DeployRequestView::Execute {
                creation: creation@,
            },
            DeployRequest::Finish { address } => DeployRequestView::Finish { address },
            DeployRequest::Abort { error } => DeployRequestView::Abort { error: error@ },
        }
    }
}

impl DeploymentView {
    /// The deployment ends in failure.
    pub open spec fn stop(self, error: ErrorView) -> (DeploymentView, DeployRequestView) {
        (DeploymentView { stage: DeployStage::Done, ..self }, DeployRequestView::Abort { error })
    }

    /// A reply that the stage did not ask for ends the deployment.
    pub open spec fn out_of_turn(self) -> (DeploymentView, DeployRequestView) {
        self.stop(ErrorView::Deploy("reply out of turn"@))
    }

    /// The signing key was read: the build artifact is asked for, unless
    /// the text holds no key. Then the deployment ends with what was
    /// found wrong with it.
    pub open spec fn with_key(self, key: Result<Seq<u8>, Seq<char>>) -> (
        DeploymentView,
        DeployRequestView,
    ) {
        match key {
            Ok(secret) => (
                DeploymentView { stage: DeployStage::Artifact, secret, ..self },
                DeployRequestView::LoadArtifact { path: artifact_path(self.contracts_dir) },
            ),
            Err(fault) => self.stop(ErrorView::Serialization(fault)),
        }
    }

    /// The artifact was loaded: the metadata is to be published.
    pub open spec fn with_artifact(self, bytecode: Seq<char>, abi: Seq<u8>) -> (
        DeploymentView,
        DeployRequestView,
    ) {
        (
            DeploymentView { stage: DeployStage::Metadata, bytecode, abi, ..self },
            DeployRequestView::PublishMetadata {
                title: DEFAULT_NAME@,
                description: DEFAULT_DESCRIPTION@,
            },
        )
    }

    /// The creation transaction for the metadata stored under `root`.
    pub open spec fn creation(self, root: Seq<char>) -> CreationView {
        CreationView {
            abi: self.abi,
            code: self.bytecode.skip(2),
            name: DEFAULT_NAME@,
            symbol: DEFAULT_SYMBOL@,
            supply: DEFAULT_SUPPLY,
            metadata: root,
            secret: self.secret,
            chain_id: self.eth_chain_id,
            gas: GAS_LIMIT,
            gas_price: GAS_PRICE,
            confirmations: self.confirmations,
        }
    }

    /// The metadata was published under `root`: the creation transaction
    /// is to be sent, unless the bytecode lacks its marker `0x`. Then the
    /// deployment ends as invalid input, and nothing is sent.
    pub open spec fn with_metadata(self, root: Seq<char>) -> (DeploymentView, DeployRequestView) {
        if is_prefixed(self.bytecode) {
            (
                DeploymentView { stage: DeployStage::Execution, ..self },
                DeployRequestView::Execute { creation: self.creation(root) },
            )
        } else {
            self.stop(ErrorView::InvalidInput)
        }
    }

    /// The contract was created: the deployment ends with its address.
    pub open spec fn with_address(self, address: Address) -> (DeploymentView, DeployRequestView) {
        (
            DeploymentView { stage: DeployStage::Done, ..self },
            DeployRequestView::Finish { address },
        )
    }
}

impl Deployment {
    /// A deployment that has asked for nothing yet.
    pub fn new(private_key: String, contracts_dir: String, eth_chain_id: u64) -> (state: Deployment)
        ensures
            state@.private_key == private_key@,
            state@.contracts_dir == contracts_dir@,
            state@.eth_chain_id == eth_chain_id,
            state@.confirmations == CONFIRMATIONS,
            state@.stage == DeployStage::Start,
            state@.secret == Seq::new(32, |i: int| 0u8),
            state@.bytecode == Seq::<char>::empty(),
            state@.abi == Seq::<u8>::empty(),
    {
        Deployment {
            private_key,
            contracts_dir,
            eth_chain_id,
            confirmations: CONFIRMATIONS,
            stage: DeployStage::Start,
            secret: [0u8; 32],
            bytecode: String::new(),
            abi: Vec::new(),
        }
    }

    /// Ends the deployment in failure.
    pub fn stop(self, error: Error) -> (step: (Deployment, DeployRequest))
        ensures
            (step.0@, step.1@) == self@.stop(error@),
    {
        (Deployment { stage: DeployStage::Done, ..self }, DeployRequest::Abort { error })
    }

    /// Ends the deployment on a reply that the stage did not ask for.
    pub fn out_of_turn(self) -> (step: (Deployment, DeployRequest))
        ensures
            (step.0@, step.1@) == self@.out_of_turn(),
    {
        self.stop(Error::Deploy(String::from_str("reply out of turn")))
    }

    /// Takes the signing key as it was read, and asks for the build
    /// artifact.
    pub fn with_key(self, key: Result<[u8; 32], String>) -> (step: (Deployment, DeployRequest))
        ensures
            (step.0@, step.1@) == self@.with_key(
                match key {
                    Ok(secret) => Ok(secret@),
                    Err(fault) => Err(fault@),
                },
            ),
    {
        match key {
            Ok(secret) => {
                let path = artifact_file(self.contracts_dir.as_str());
                (
                    Deployment { stage: DeployStage::Artifact, secret, ..self },
                    DeployRequest::LoadArtifact { path },
                )
            },
            Err(fault) => self.stop(Error::Serialization(fault)),
        }
    }

    /// Takes the build artifact, and asks for the metadata to be published.
    pub fn with_artifact(self, artifact: DeployableContract) -> (step: (Deployment, DeployRequest))
        ensures
            (step.0@, step.1@) == self@.with_artifact(artifact.bytecode@, artifact.abi@),
    {
        (
            Deployment {
                stage: DeployStage::Metadata,
                bytecode: artifact.bytecode,
                abi: artifact.abi,
                ..self
            },
            DeployRequest::PublishMetadata {
                title: String::from_str(DEFAULT_NAME),
                description: String::from_str(DEFAULT_DESCRIPTION),
            },
        )
    }

    /// Takes the root of the published metadata, and asks for the creation
    /// transaction to be sent. Bytecode without the marker `0x` ends the
    /// deployment as invalid input instead, and nothing is sent.
    pub fn with_metadata(self, root: ContentRef) -> (step: (Deployment, DeployRequest))
        ensures
            (step.0@, step.1@) == self@.with_metadata(root.id@),
    {
        match creation_code(self.bytecode.as_str()) {
            Ok(code) => {
                let creation = Creation {
                    abi: self.abi.clone(),
                    code,
                    name: String::from_str(DEFAULT_NAME),
                    symbol: String::from_str(DEFAULT_SYMBOL),
                    supply: DEFAULT_SUPPLY,
                    metadata: root.id,
                    secret: self.secret,
                    chain_id: self.eth_chain_id,
                    gas: GAS_LIMIT,
                    gas_price: GAS_PRICE,
                    confirmations: self.confirmations,
                };
                (
                    Deployment { stage: DeployStage::Execution, ..self },
                    DeployRequest::Execute { creation },
                )
            },
            Err(error) => self.stop(error),
        }
    }

    /// Takes the address of the created contract, and ends the deployment.
    pub fn with_address(self, address: Address) -> (step: (Deployment, DeployRequest))
        ensures
            (step.0@, step.1@) == self@.with_address(address),
    {
        (Deployment { stage: DeployStage::Done, ..self }, DeployRequest::Finish { address })
    }
}

/// What `deploy` does with a reply: the deployment it leaves and the
/// request it makes.
pub open spec fn deploy_allows(
    state: DeploymentView,
    reply: DeployReply,
    next: DeploymentView,
    request: DeployRequestView,
) -> bool {
    match reply {
        DeployReply::Failure(error) => (next, request) == state.stop(error@),
        DeployReply::Begin => if state.stage != DeployStage::Start {
            (next, request) == state.out_of_turn()
        } else {
            (next, request) == state.with_key(secret_key_read(state.private_key))
        },
        DeployReply::Artifact(artifact) => (next, request) == if state.stage
            == DeployStage::Artifact {
            state.with_artifact(artifact.bytecode@, artifact.abi@)
        } else {
            state.out_of_turn()
        },
        DeployReply::Metadata(root) => (next, request) == if state.stage == DeployStage::Metadata {
            state.with_metadata(root.id@)
        } else {
            state.out_of_turn()
        },
        DeployReply::Deployed(address) => (next, request) == if state.stage
            == DeployStage::Execution {
            state.with_address(address)
        } else {
            state.out_of_turn()
        },
    }
}

/// Deploys an instance of the Beacon DAO, one step at a time: takes what
/// came back from the last request and says what to ask for next. The
/// deployment reads the signing key, loads the build artifact, has the
/// metadata published, and then has the creation transaction sent with the
/// metadata's root as the last constructor argument.
pub fn deploy(state: Deployment, reply: DeployReply) -> (step: (Deployment, DeployRequest))
    ensures
        deploy_allows(state@, reply, step.0@, step.1@),
{
    match reply {
        DeployReply::Failure(error) => state.stop(error),
        DeployReply::Begin => match state.stage {
            DeployStage::Start => {
                let key = secret_key_from_str(state.private_key.as_str());
                state.with_key(key)
            },
            _ => state.out_of_turn(),
        },
        DeployReply::Artifact(artifact) => match state.stage {
            DeployStage::Artifact => state.with_artifact(artifact),
            _ => state.out_of_turn(),
        },
        DeployReply::Metadata(root) => match state.stage {
            DeployStage::Metadata => state.with_metadata(root),
            _ => state.out_of_turn(),
        },
        DeployReply::Deployed(address) => match state.stage {
            DeployStage::Execution => state.with_address(address),
            _ => state.out_of_turn(),
        },
    }
}

/// The creation transaction is asked for only once the metadata was
/// published, and only for bytecode that carries its marker `0x`: a
/// deployment whose bytecode lacks the marker ends as invalid input, and
/// sends nothing to the chain.
pub proof fn creation_needs_marked_bytecode(
    state: DeploymentView,
    reply: DeployReply,
    next: DeploymentView,
    request: DeployRequestView,
)
    requires
        deploy_allows(state, reply, next, request),
    ensures
        request is Execute ==> state.stage == DeployStage::Metadata && reply is Metadata
            && is_prefixed(state.bytecode),
        state.stage == DeployStage::Metadata && reply is Metadata && !is_prefixed(state.bytecode)
            ==> request == (DeployRequestView::Abort { error: ErrorView::InvalidInput })
            && next.stage == DeployStage::Done,
{
}

} // verus!
