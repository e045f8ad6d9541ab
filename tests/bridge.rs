use server_blueprint::bridge::{
    backend_output_action, bridge_engaged, on_backend_output, BackendOutput, ClientAction,
    PARSE_ERROR_CODE,
};
use server_blueprint::config::SupportedTransportAdapter;

#[test]
fn malformed_frame_gets_parse_error() {
    let r = on_backend_output(BackendOutput::Frame(b"not json at all".to_vec()));
    assert!(matches!(r, ClientAction::ReplyError { code, ref message } if code == -32700 && message == "malformed upstream output"));
}

#[test]
fn valid_frame_is_relayed() {
    let frame = br#"{"jsonrpc":"2.0","id":1,"result":{}}"#.to_vec();
    let r = on_backend_output(BackendOutput::Frame(frame.clone()));
    assert!(matches!(r, ClientAction::Relay(ref f) if *f == frame));
}

#[test]
fn end_of_stream_closes() {
    assert!(matches!(on_backend_output(BackendOutput::Closed), ClientAction::Close));
    assert!(matches!(backend_output_action(BackendOutput::Frame(vec![1]), false), ClientAction::ReplyError { code, .. } if code == PARSE_ERROR_CODE));
}

#[test]
fn direct_adapter_bypasses_bridge() {
    assert!(bridge_engaged(SupportedTransportAdapter::BridgeStdioToStream));
    assert!(!bridge_engaged(SupportedTransportAdapter::Direct));
}
