use vstd::prelude::*;

use crate::config::SupportedTransportAdapter;

verus! {

/// The JSON-RPC code of a parse error, sent for a backend frame that is no
/// protocol message.
pub const PARSE_ERROR_CODE: i32 = -32700;

/// Whether some bytes deserialize as a message of a protocol server.
pub uninterp spec fn server_message_parses(frame: Seq<u8>) -> bool;

/// Relies on `serde_json::from_slice` into `rmcp::model::ServerJsonRpcMessage`:
/// whether it succeeds depends on the bytes alone.
#[verifier::external_body]
fn parses_as_server_message(frame: &[u8]) -> (r: bool)
    ensures
        r == server_message_parses(frame@),
{
    serde_json::from_slice::<rmcp::model::ServerJsonRpcMessage>(frame).is_ok()
}

/// What the backend's side of a bridged connection produced.
#[derive(Debug, Clone)]
pub enum BackendOutput {
    /// One frame of output.
    Frame(Vec<u8>),
    /// The backend's stream ended.
    Closed,
}

/// What the bridge does towards the client.
#[derive(Debug, Clone)]
pub enum ClientAction {
    /// Send the frame as it is.
    Relay(Vec<u8>),
    /// Send an error response in place of a frame; the connection stays open.
    ReplyError { code: i32, message: String },
    /// Close the client's connection.
    Close,
}

/// The message of the error sent for a malformed frame.
pub open spec fn malformed_message() -> Seq<char> {
    "malformed upstream output"@
}

/// Whether the bridge is engaged for an adapter: a workload that serves its
/// own endpoint needs none.
pub fn bridge_engaged(adapter: SupportedTransportAdapter) -> (r: bool)
    ensures
        r == (adapter == SupportedTransportAdapter::BridgeStdioToStream),
{
    match adapter {
        SupportedTransportAdapter::BridgeStdioToStream => true,
        SupportedTransportAdapter::Direct => false,
    }
}

/// What the bridge does with `output`, given whether a frame is a protocol
/// message: a message is relayed as it is, anything else is answered with a
/// parse error, and only the end of the backend's stream closes the client.
pub fn backend_output_action(output: BackendOutput, well_formed: bool) -> (r: ClientAction)
    ensures
        match output {
            BackendOutput::Frame(f) => if well_formed {
                r == ClientAction::Relay(f)
            } else {
                r matches ClientAction::ReplyError { code, message } && code == PARSE_ERROR_CODE
                    && message@ == malformed_message()
            },
            BackendOutput::Closed => r is Close,
        },
{
    match output {
        BackendOutput::Frame(f) => {
            if well_formed {
                ClientAction::Relay(f)
            } else {
                ClientAction::ReplyError {
                    code: PARSE_ERROR_CODE,
                    message: "malformed upstream output".to_string(),
                }
            }
        },
        BackendOutput::Closed => ClientAction::Close,
    }
}

/// What the bridge does with `output`; a frame is judged by whether it
/// deserializes as a protocol server's message.
pub fn on_backend_output(output: BackendOutput) -> (r: ClientAction)
    ensures
        match output {
            BackendOutput::Frame(f) => if server_message_parses(f@) {
                r == ClientAction::Relay(f)
            } else {
                r matches ClientAction::ReplyError { code, message } && code == PARSE_ERROR_CODE
                    && message@ == malformed_message()
            },
            BackendOutput::Closed => r is Close,
        },
{
    let well_formed = match &output {
        BackendOutput::Frame(f) => parses_as_server_message(f.as_slice()),
        BackendOutput::Closed => true,
    };
    backend_output_action(output, well_formed)
}

} // verus!
