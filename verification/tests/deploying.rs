use daowiz::net::chain::Address;
use daowiz::net::contract::artifact_file;
use daowiz::net::contract::deploy;
use daowiz::net::contract::DeployReply;
use daowiz::net::contract::DeployRequest;
use daowiz::net::contract::DeployStage;
use daowiz::net::contract::DeployableContract;
use daowiz::net::contract::Deployment;
use daowiz::net::contract::CONFIRMATIONS;
use daowiz::net::contract::DEFAULT_DESCRIPTION;
use daowiz::net::contract::DEFAULT_NAME;
use daowiz::net::contract::DEFAULT_SUPPLY;
use daowiz::net::contract::DEFAULT_SYMBOL;
use daowiz::net::contract::GAS_LIMIT;
use daowiz::net::contract::GAS_PRICE;
use daowiz::net::error::Error;
use daowiz::net::payload::ContentRef;

const SIGNING_KEY: &str = "4c0883a69102937d6231471b5dbb6204fe5129617082792ae468d01a3f362318";

fn begun(key: &str) -> Deployment {
    Deployment::new(key.to_string(), "build".to_string(), 5)
}

fn compiled(bytecode: &str) -> DeployableContract {
    DeployableContract { bytecode: bytecode.to_string(), abi: b"[{\"type\":\"constructor\"}]".to_vec() }
}

fn root() -> ContentRef {
    ContentRef { id: "bafyroot".to_string() }
}

#[test]
fn deployment_constants() {
    assert_eq!(DEFAULT_NAME, "Vision DAO");
    assert_eq!(DEFAULT_SYMBOL, "VIS");
    assert_eq!(
        DEFAULT_DESCRIPTION,
        "The Vision DAO is a DAO that governs the Beacon DAO layer of the Vision ecosystem."
    );
    assert_eq!(DEFAULT_SUPPLY, 1_000_000u128 * 10u128.pow(18));
    assert_eq!(DEFAULT_SUPPLY, 2003764205206896640u128 + (54210u128 << 64));
    assert_eq!(GAS_LIMIT, 4_000_000);
    assert_eq!(GAS_PRICE, 2_000_000_000);
    assert_eq!(CONFIRMATIONS, 2);
}

#[test]
fn artifact_file_lies_under_the_contracts_directory() {
    assert_eq!(artifact_file("build"), "build/contracts/Idea.sol/Idea.json");
    assert_eq!(artifact_file(""), "/contracts/Idea.sol/Idea.json");
}

#[test]
fn deploy_runs_from_key_to_address() {
    let state = begun(SIGNING_KEY);
    assert_eq!(state.stage, DeployStage::Start);
    let (state, request) = deploy(state, DeployReply::Begin);
    assert_eq!(state.stage, DeployStage::Artifact);
    assert_eq!(state.secret.to_vec(), hex::decode(SIGNING_KEY).unwrap());
    assert!(matches!(request, DeployRequest::LoadArtifact { path } if path == "build/contracts/Idea.sol/Idea.json"));

    let (state, request) = deploy(state, DeployReply::Artifact(compiled("0x6080aabb")));
    assert_eq!(state.stage, DeployStage::Metadata);
    match request {
        DeployRequest::PublishMetadata { title, description } => {
            assert_eq!(title, DEFAULT_NAME);
            assert_eq!(description, DEFAULT_DESCRIPTION);
        }
        other => panic!("unexpected request {:?}", other),
    }

    let (state, request) = deploy(state, DeployReply::Metadata(root()));
    assert_eq!(state.stage, DeployStage::Execution);
    match request {
        DeployRequest::Execute { creation } => {
            assert_eq!(creation.abi, b"[{\"type\":\"constructor\"}]".to_vec());
            assert_eq!(creation.code, "6080aabb");
            assert_eq!(creation.name, "Vision DAO");
            assert_eq!(creation.symbol, "VIS");
            assert_eq!(creation.supply, 1_000_000_000_000_000_000_000_000);
            assert_eq!(creation.metadata, "bafyroot");
            assert_eq!(creation.secret.to_vec(), hex::decode(SIGNING_KEY).unwrap());
            assert_eq!(creation.chain_id, 5);
            assert_eq!(creation.gas, 4_000_000);
            assert_eq!(creation.gas_price, 2_000_000_000);
            assert_eq!(creation.confirmations, 2);
        }
        other => panic!("unexpected request {:?}", other),
    }

    let created = Address { bytes: [0x42; 20] };
    let (state, request) = deploy(state, DeployReply::Deployed(created));
    assert_eq!(state.stage, DeployStage::Done);
    assert!(matches!(request, DeployRequest::Finish { address } if address == created));
}

#[test]
fn deploy_without_marker_is_invalid_input_and_sends_nothing() {
    let (state, _) = deploy(begun(SIGNING_KEY), DeployReply::Begin);
    let (state, request) = deploy(state, DeployReply::Artifact(compiled("6080aabb")));
    assert!(matches!(request, DeployRequest::PublishMetadata { .. }));
    let (state, request) = deploy(state, DeployReply::Metadata(root()));
    assert_eq!(state.stage, DeployStage::Done);
    assert!(matches!(request, DeployRequest::Abort { error: Error::InvalidInput }));
    let (state, request) = deploy(state, DeployReply::Deployed(Address::zero()));
    assert_eq!(state.stage, DeployStage::Done);
    assert!(matches!(request, DeployRequest::Abort { .. }));
}

#[test]
fn deploy_refuses_a_malformed_key() {
    for key in ["", "xyz", &SIGNING_KEY[2..], &format!("0x{}", SIGNING_KEY), &"00".repeat(32), &"ff".repeat(32)] {
        let (state, request) = deploy(begun(key), DeployReply::Begin);
        assert_eq!(state.stage, DeployStage::Done);
        let expected = Error::Serialization("malformed or out-of-range secret key".to_string());
        assert!(matches!(request, DeployRequest::Abort { error } if error == expected));
    }
}

#[test]
fn deploy_passes_a_failure_on() {
    let (state, _) = deploy(begun(SIGNING_KEY), DeployReply::Begin);
    let (state, _) = deploy(state, DeployReply::Artifact(compiled("0x60")));
    let failure = Error::Ipfs("store is down".to_string());
    let (state, request) = deploy(state, DeployReply::Failure(failure.clone()));
    assert_eq!(state.stage, DeployStage::Done);
    assert!(matches!(request, DeployRequest::Abort { error } if error == failure));
}

#[test]
fn deploy_refuses_a_reply_out_of_turn() {
    let expected = Error::Deploy("reply out of turn".to_string());
    let (state, request) = deploy(begun(SIGNING_KEY), DeployReply::Metadata(root()));
    assert_eq!(state.stage, DeployStage::Done);
    assert!(matches!(request, DeployRequest::Abort { error } if error == expected));
    let (state, _) = deploy(begun(SIGNING_KEY), DeployReply::Begin);
    let (_, request) = deploy(state, DeployReply::Begin);
    assert!(matches!(request, DeployRequest::Abort { error } if error == expected));
    let (state, _) = deploy(begun(SIGNING_KEY), DeployReply::Begin);
    let (_, request) = deploy(state, DeployReply::Deployed(Address::zero()));
    assert!(matches!(request, DeployRequest::Abort { error } if error == expected));
}

#[test]
fn deploy_waits_for_as_many_confirmations_as_it_is_told() {
    let mut state = begun(SIGNING_KEY);
    assert_eq!(state.confirmations, 2);
    state.confirmations = 0;
    let (state, _) = deploy(state, DeployReply::Begin);
    let (state, _) = deploy(state, DeployReply::Artifact(compiled("0x60")));
    let (_, request) = deploy(state, DeployReply::Metadata(root()));
    assert!(matches!(request, DeployRequest::Execute { creation } if creation.confirmations == 0));
}
