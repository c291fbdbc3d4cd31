use daowiz::cli::ParseError;
use daowiz::net::error::Cause;
use daowiz::net::error::Error;

#[test]
fn parse_error_messages() {
    assert_eq!(ParseError::MissingCommand.message(), "parse error: no command specified");
    assert_eq!(
        ParseError::MissingPrivateKey.message(),
        "config error: no DEPLOYMENT_PRIVATE_KEY environment variable provided"
    );
    assert_eq!(
        ParseError::MissingRpcUrlETH.message(),
        "config error: command requires a --eth-rpc-uri"
    );
    assert_eq!(
        ParseError::MissingContractsSrc.message(),
        "config error: command requires a --contracts-dir"
    );
    assert_eq!(
        ParseError::MissingChainId.message(),
        "config error: command requires a --eth-chain-id"
    );
    assert_eq!(ParseError::MiscError("no daemon".to_string()).message(), "error: no daemon");
}

#[test]
fn error_messages() {
    assert_eq!(
        Error::Conf(ParseError::MissingCommand).message(),
        "configuration error: parse error: no command specified"
    );
    assert_eq!(Error::Web3("timeout".to_string()).message(), "web3 error: timeout");
    assert_eq!(Error::Contract("bad abi".to_string()).message(), "contract error: bad abi");
    assert_eq!(Error::Deploy("reverted".to_string()).message(), "deployment error: reverted");
    assert_eq!(Error::Io("not found".to_string()).message(), "IO error: not found");
    assert_eq!(
        Error::Serialization("eof".to_string()).message(),
        "serialization error: eof"
    );
    assert_eq!(Error::Ipfs("refused".to_string()).message(), "ipfs network error: refused");
    assert_eq!(
        Error::InvalidInput.message(),
        "the inputted file could not be parsed properly"
    );
}

#[test]
fn error_source_is_what_the_error_carries() {
    let missing = ParseError::MissingChainId;
    assert_eq!(Error::Conf(missing.clone()).source(), Some(Cause::Conf(&missing)));
    let text = "gone".to_string();
    assert_eq!(Error::Web3(text.clone()).source(), Some(Cause::Text(&text)));
    assert_eq!(Error::Contract(text.clone()).source(), Some(Cause::Text(&text)));
    assert_eq!(Error::Deploy(text.clone()).source(), Some(Cause::Text(&text)));
    assert_eq!(Error::Io(text.clone()).source(), Some(Cause::Text(&text)));
    assert_eq!(Error::Serialization(text.clone()).source(), Some(Cause::Text(&text)));
    assert_eq!(Error::Ipfs(text.clone()).source(), Some(Cause::Text(&text)));
    assert_eq!(Error::InvalidInput.source(), None);
}

#[test]
fn parse_error_converts_into_error() {
    let error: Error = ParseError::MissingPrivateKey.into();
    assert_eq!(error, Error::Conf(ParseError::MissingPrivateKey));
    assert_eq!(Error::from(ParseError::MissingCommand), Error::Conf(ParseError::MissingCommand));
}
