use bitcoin_rpc_api::error::{forward, to_rpc_error};
use bitcoin_rpc_api::{RpcError, RpcErrorCode};
use bitcoincore_rpc::bitcoin::hashes::hex;
use bitcoincore_rpc::Error as ClientError;

#[test]
fn codes_are_those_of_the_protocol() {
    assert_eq!(RpcErrorCode::ParseError.code(), -32700);
    assert_eq!(RpcErrorCode::InternalError.code(), -32603);
    assert_eq!(RpcErrorCode::ParseError.code(), jsonrpc_core::ErrorCode::ParseError.code());
    assert_eq!(RpcErrorCode::InternalError.code(), jsonrpc_core::ErrorCode::InternalError.code());
}

#[test]
fn internal_error_keeps_the_message() {
    let e = RpcError::internal_error("the node is gone".to_string());
    assert_eq!(e.code, RpcErrorCode::InternalError);
    assert_eq!(e.message, "the node is gone");
    assert_eq!(e.data, None);
}

#[test]
fn client_failure_becomes_internal_error() {
    let e = to_rpc_error(ClientError::UnexpectedStructure);
    assert_eq!(
        e,
        RpcError {
            code: RpcErrorCode::InternalError,
            message: "the JSON result had an unexpected structure".to_string(),
            data: None,
        }
    );
}

#[test]
fn message_is_the_description_of_the_client() {
    let e = to_rpc_error(ClientError::ReturnedError("loading block index".to_string()));
    assert_eq!(e.code, RpcErrorCode::InternalError);
    assert_eq!(e.message, "the daemon returned an error string: loading block index");
    assert_eq!(e.data, None);

    let e = to_rpc_error(ClientError::InvalidCookieFile);
    assert_eq!(e.message, "invalid cookie file");

    let e = to_rpc_error(ClientError::Hex(hex::Error::InvalidChar(120)));
    assert_eq!(e.message, "hex decode error: invalid hex character 120");
}

#[test]
fn message_is_never_empty() {
    let e = to_rpc_error(ClientError::ReturnedError(String::new()));
    assert_eq!(e.message, "the daemon returned an error string: ");
    assert!(!e.message.is_empty());
}

#[test]
fn all_client_failures_share_one_classification() {
    let failures = vec![
        ClientError::UnexpectedStructure,
        ClientError::InvalidCookieFile,
        ClientError::ReturnedError("no".to_string()),
        ClientError::Hex(hex::Error::OddLengthString(3)),
        ClientError::Io(std::io::Error::new(std::io::ErrorKind::ConnectionRefused, "refused")),
    ];
    for failure in failures {
        let text = failure.to_string();
        let e = to_rpc_error(failure);
        assert_eq!(e.code, RpcErrorCode::InternalError);
        assert_eq!(e.message, text);
        assert_eq!(e.data, None);
    }
}

#[test]
fn forward_hands_a_value_on_unchanged() {
    let r: Result<u64, RpcError> = forward(Ok(86400));
    assert_eq!(r, Ok(86400));
    let r: Result<Vec<String>, RpcError> = forward(Ok(vec!["a".to_string(), "b".to_string()]));
    assert_eq!(r, Ok(vec!["a".to_string(), "b".to_string()]));
    let r: Result<(), RpcError> = forward(Ok(()));
    assert_eq!(r, Ok(()));
}

#[test]
fn forward_reports_a_failure_as_an_envelope() {
    let r: Result<u64, RpcError> = forward(Err(ClientError::UnexpectedStructure));
    assert_eq!(
        r,
        Err(RpcError {
            code: RpcErrorCode::InternalError,
            message: "the JSON result had an unexpected structure".to_string(),
            data: None,
        })
    );
}
