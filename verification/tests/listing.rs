use daowiz::cli::ListContext;
use daowiz::net::chain::Address;
use daowiz::net::chain::Receipt;
use daowiz::net::chain::ReceiptReply;
use daowiz::net::chain::Transaction;
use daowiz::net::contract::list;
use daowiz::net::contract::DeployableContract;
use daowiz::net::contract::ListReply;
use daowiz::net::contract::ListRequest;
use daowiz::net::contract::ListStage;
use daowiz::net::contract::Listing;
use daowiz::net::error::Error;

const KEY: &str = "4c0883a69102937d6231471b5dbb6204fe5129617082792ae468d01a3f362318";

fn address(tag: u8) -> Address {
    Address { bytes: [tag; 20] }
}

fn context(key: &str) -> ListContext {
    ListContext {
        private_key: key.to_string(),
        eth_uri: "http://127.0.0.1:8545".to_string(),
        eth_chain_id: 31337,
        contracts_dir: "artifacts".to_string(),
    }
}

fn artifact(bytecode: &str) -> DeployableContract {
    DeployableContract { bytecode: bytecode.to_string(), abi: b"[]".to_vec() }
}

/// A transaction of a block with its receipt.
#[derive(Clone)]
struct Entry {
    input: Vec<u8>,
    receipt: Option<Receipt>,
}

fn creation(input: &[u8], from: u8, contract: u8) -> Entry {
    Entry {
        input: input.to_vec(),
        receipt: Some(Receipt { from: address(from), contract_address: Some(address(contract)) }),
    }
}

fn hash_of(height: usize, index: usize) -> [u8; 32] {
    let mut hash = [0u8; 32];
    hash[0] = height as u8;
    hash[1] = index as u8;
    hash
}

/// Answers the requests of a listing from a chain held in memory. The
/// receipts of a block are handed back from the last to the first where
/// `backwards` is set.
fn run(
    key: &str,
    bytecode: &str,
    sender: Address,
    chain: &[Option<Vec<Entry>>],
    backwards: bool,
) -> Result<Vec<Address>, Error> {
    let mut state = Listing::new(context(key));
    let mut reply = ListReply::Begin;
    let mut asked: Vec<[u8; 32]> = Vec::new();
    loop {
        let (next, request) = list(state, reply);
        state = next;
        reply = match request {
            ListRequest::LoadArtifact { path } => {
                assert_eq!(path, "artifacts/contracts/Idea.sol/Idea.json");
                ListReply::Artifact(artifact(bytecode))
            }
            ListRequest::ImportAccount { secret } => {
                assert_eq!(secret.to_vec(), hex::decode(KEY).unwrap());
                ListReply::Account(sender)
            }
            ListRequest::BlockNumber => ListReply::Head(chain.len() as u64 - 1),
            ListRequest::BlockWithTxs { height } => {
                let block = chain[height as usize].as_ref().map(|entries| {
                    entries
                        .iter()
                        .enumerate()
                        .map(|(index, entry)| Transaction {
                            hash: hash_of(height as usize, index),
                            input: entry.input.clone(),
                        })
                        .collect::<Vec<Transaction>>()
                });
                ListReply::Block(block)
            }
            ListRequest::TransactionReceipts { hashes } => {
                asked.extend(hashes.iter().cloned());
                let mut replies: Vec<ReceiptReply> = hashes
                    .iter()
                    .map(|hash| {
                        let entries = chain[hash[0] as usize].as_ref().unwrap();
                        ReceiptReply {
                            index: hash[1] as usize,
                            receipt: entries[hash[1] as usize].receipt,
                        }
                    })
                    .collect();
                if backwards {
                    replies.reverse();
                }
                ListReply::Receipts(replies)
            }
            ListRequest::Finish { deployed } => {
                assert_eq!(state.stage, ListStage::Done);
                return Ok(deployed);
            }
            ListRequest::Abort { error } => {
                assert_eq!(state.stage, ListStage::Done);
                return Err(error);
            }
        };
    }
}

fn three_creations() -> Vec<Option<Vec<Entry>>> {
    let mut chain: Vec<Option<Vec<Entry>>> = (0..8).map(|_| Some(Vec::new())).collect();
    chain[1] = Some(vec![creation(&[0xaa, 0xbb], 1, 0x11)]);
    chain[3] = Some(vec![creation(&[0xcc, 0xdd], 2, 0x33)]);
    chain[7] = Some(vec![creation(&[0xaa, 0xbb], 1, 0x77)]);
    chain
}

#[test]
fn list_finds_the_creations_of_the_sender() {
    let found = run(KEY, "0xAABB", address(1), &three_creations(), false).unwrap();
    assert!(found == vec![address(0x11), address(0x77)]);
}

#[test]
fn list_is_the_same_whatever_the_order_of_receipts() {
    let mut chain = three_creations();
    chain[5] = Some(vec![
        creation(&[0xaa, 0xbb], 1, 0x51),
        creation(&[0xaa, 0xbb], 2, 0x52),
        creation(&[0xaa], 1, 0x53),
        creation(&[0xaa, 0xbb], 1, 0x54),
    ]);
    let forwards = run(KEY, "0xAABB", address(1), &chain, false).unwrap();
    let backwards = run(KEY, "0xAABB", address(1), &chain, true).unwrap();
    assert!(forwards == vec![address(0x11), address(0x51), address(0x54), address(0x77)]);
    assert!(forwards == backwards);
}

#[test]
fn list_with_one_match_returns_one_address() {
    let mut chain: Vec<Option<Vec<Entry>>> = (0..4).map(|_| Some(Vec::new())).collect();
    chain[2] = Some(vec![
        creation(&[0x01], 1, 0x20),
        creation(&[0xaa, 0xbb], 1, 0x21),
        Entry { input: vec![0xaa, 0xbb], receipt: None },
    ]);
    let found = run(KEY, "0xaabb", address(1), &chain, false).unwrap();
    assert!(found == vec![address(0x21)]);
}

#[test]
fn list_without_match_returns_nothing() {
    let mut chain: Vec<Option<Vec<Entry>>> = (0..4).map(|_| Some(Vec::new())).collect();
    chain[0] = Some(vec![creation(&[0xaa, 0xbb], 2, 0x01)]);
    chain[1] = Some(vec![creation(&[0xaa, 0xbb, 0x00], 1, 0x02)]);
    chain[3] = Some(vec![Entry {
        input: vec![0xaa, 0xbb],
        receipt: Some(Receipt { from: address(1), contract_address: None }),
    }]);
    let found = run(KEY, "0xAABB", address(1), &chain, false).unwrap();
    assert!(found.is_empty());
}

#[test]
fn list_reaches_the_block_at_height_zero() {
    let chain = vec![Some(vec![creation(&[0xaa, 0xbb], 1, 0x01)])];
    let found = run(KEY, "0xAABB", address(1), &chain, false).unwrap();
    assert!(found == vec![address(0x01)]);
}

#[test]
fn list_ends_at_a_missing_block() {
    let mut chain = three_creations();
    chain[2] = None;
    let found = run(KEY, "0xAABB", address(1), &chain, false).unwrap();
    assert!(found == vec![address(0x77)]);
}

#[test]
fn list_refuses_bytecode_without_marker() {
    let outcome = run(KEY, "AABB", address(1), &three_creations(), false);
    assert_eq!(outcome.unwrap_err(), Error::InvalidInput);
}

#[test]
fn list_refuses_bytecode_that_is_not_hexadecimal() {
    let outcome = run(KEY, "0xAAB", address(1), &three_creations(), false);
    assert_eq!(outcome.unwrap_err(), Error::Serialization("Odd number of digits".to_string()));
    let outcome = run(KEY, "0xAAGG", address(1), &three_creations(), false);
    assert_eq!(
        outcome.unwrap_err(),
        Error::Serialization("Invalid character 'G' at position 2".to_string())
    );
}

#[test]
fn list_refuses_a_key_that_is_no_word() {
    let outcome = run("not a key", "0xAABB", address(1), &three_creations(), false);
    assert_eq!(outcome.unwrap_err(), Error::Web3("Internal Web3 error".to_string()));
    let short = &KEY[2..];
    let outcome = run(short, "0xAABB", address(1), &three_creations(), false);
    assert_eq!(outcome.unwrap_err(), Error::Web3("Internal Web3 error".to_string()));
}

#[test]
fn list_accepts_a_key_with_marker() {
    let marked = format!("0x{}", KEY);
    let found = run(&marked, "0xAABB", address(1), &three_creations(), false).unwrap();
    assert!(found == vec![address(0x11), address(0x77)]);
}

#[test]
fn list_passes_a_failure_on() {
    let state = Listing::new(context(KEY));
    let (state, _) = list(state, ListReply::Begin);
    let failure = Error::Io("no such file".to_string());
    let (state, request) = list(state, ListReply::Failure(failure.clone()));
    assert_eq!(state.stage, ListStage::Done);
    assert!(matches!(request, ListRequest::Abort { error } if error == failure));
}

#[test]
fn list_refuses_a_reply_out_of_turn() {
    let state = Listing::new(context(KEY));
    let (state, request) = list(state, ListReply::Head(3));
    assert_eq!(state.stage, ListStage::Done);
    let expected = Error::Web3("reply out of turn".to_string());
    assert!(matches!(request, ListRequest::Abort { error } if error == expected));
    let (state, request) = list(state, ListReply::Begin);
    assert_eq!(state.stage, ListStage::Done);
    assert!(matches!(request, ListRequest::Abort { error } if error == expected));
}

#[test]
fn list_refuses_receipts_that_do_not_answer() {
    let state = Listing::new(context(KEY));
    let (state, _) = list(state, ListReply::Begin);
    let (state, _) = list(state, ListReply::Artifact(artifact("0xAABB")));
    let (state, _) = list(state, ListReply::Account(address(1)));
    let (state, request) = list(state, ListReply::Head(0));
    assert!(matches!(request, ListRequest::BlockWithTxs { height: 0 }));
    let block = vec![Transaction { hash: [7; 32], input: vec![0xaa, 0xbb] }];
    let (state, request) = list(state, ListReply::Block(Some(block)));
    assert_eq!(state.stage, ListStage::Receipts { height: 0 });
    assert!(matches!(request, ListRequest::TransactionReceipts { hashes } if hashes == vec![[7u8; 32]]));
    let (state, request) = list(state, ListReply::Receipts(Vec::new()));
    assert_eq!(state.stage, ListStage::Done);
    let expected = Error::Web3("receipts do not answer the block".to_string());
    assert!(matches!(request, ListRequest::Abort { error } if error == expected));
}

#[test]
fn list_walks_down_from_the_head() {
    let state = Listing::new(context(KEY));
    assert_eq!(state.stage, ListStage::Start);
    let (state, _) = list(state, ListReply::Begin);
    assert_eq!(state.stage, ListStage::Artifact);
    let (state, _) = list(state, ListReply::Artifact(artifact("0xAABB")));
    assert_eq!(state.stage, ListStage::Account);
    assert_eq!(state.bytecode, vec![0xaa, 0xbb]);
    let (state, request) = list(state, ListReply::Account(address(1)));
    assert_eq!(state.stage, ListStage::Head);
    assert!(matches!(request, ListRequest::BlockNumber));
    let (state, request) = list(state, ListReply::Head(2));
    assert!(matches!(request, ListRequest::BlockWithTxs { height: 2 }));
    let (state, _) = list(state, ListReply::Block(Some(Vec::new())));
    let (state, request) = list(state, ListReply::Receipts(Vec::new()));
    assert_eq!(state.stage, ListStage::Block { height: 1 });
    assert!(matches!(request, ListRequest::BlockWithTxs { height: 1 }));
    let (state, _) = list(state, ListReply::Block(Some(Vec::new())));
    let (state, request) = list(state, ListReply::Receipts(Vec::new()));
    assert!(matches!(request, ListRequest::BlockWithTxs { height: 0 }));
    let (state, _) = list(state, ListReply::Block(Some(Vec::new())));
    let (state, request) = list(state, ListReply::Receipts(Vec::new()));
    assert_eq!(state.stage, ListStage::Done);
    assert!(matches!(request, ListRequest::Finish { deployed } if deployed.is_empty()));
}
