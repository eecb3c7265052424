//! The remote-control channel: requests, responses, and what each message
//! of a connection comes to.

use vstd::prelude::*;
use crate::events::{CubensisEvent, CubensisEventView};

verus! {

/// A request of a remote client.
#[derive(Debug)]
pub enum RpcRequest {
    SetProject { project_name: String },
}

/// How serious the message of a response is.
#[derive(Clone, Copy, Debug, PartialEq, Eq, Structural)]
pub enum RpcSeverity {
    /// No severity is given.
    Unset,
    Info,
    Warning,
    Error,
}

impl RpcSeverity {
    /// The number that stands for the severity on the wire.
    pub open spec fn spec_code(self) -> u32 {
        match self {
            RpcSeverity::Unset => 0,
            RpcSeverity::Info => 1,
            RpcSeverity::Warning => 2,
            RpcSeverity::Error => 3,
        }
    }

    pub fn code(self) -> (code: u32)
        ensures
            code == self.spec_code(),
    {
        match self {
            RpcSeverity::Unset => 0,
            RpcSeverity::Info => 1,
            RpcSeverity::Warning => 2,
            RpcSeverity::Error => 3,
        }
    }
}

/// The answer to a request.
#[derive(Debug)]
pub struct RpcResponse {
    pub is_error: bool,
    pub severity: RpcSeverity,
    pub message: String,
}

/// The mathematical value of an [`RpcResponse`].
pub struct RpcResponseView {
    pub is_error: bool,
    pub severity: RpcSeverity,
    pub message: Seq<char>,
}

impl View for RpcResponse {
    type V = RpcResponseView;

    open spec fn view(&self) -> RpcResponseView {
        RpcResponseView { is_error: self.is_error, severity: self.severity, message: self.message@ }
    }
}

/// The value of an optional message.
pub open spec fn message_view(message: Option<String>) -> Seq<char> {
    match message {
        Some(text) => text@,
        None => Seq::empty(),
    }
}

impl RpcResponse {
    /// A response that reports success, with the given message or an empty
    /// one, and with the given severity or none.
    pub fn success(message: Option<String>, severity: Option<RpcSeverity>) -> (response: Self)
        ensures
            response@ == (RpcResponseView {
                is_error: false,
                severity: match severity {
                    Some(given) => given,
                    None => RpcSeverity::Unset,
                },
                message: message_view(message),
            }),
    {
        RpcResponse {
            is_error: false,
            severity: match severity {
                Some(given) => given,
                None => RpcSeverity::Unset,
            },
            message: match message {
                Some(text) => text,
                None => String::new(),
            },
        }
    }

    /// A response that reports an error, with the given severity or that
    /// of an error.
    pub fn error(message: String, severity: Option<RpcSeverity>) -> (response: Self)
        ensures
            response@ == (RpcResponseView {
                is_error: true,
                severity: match severity {
                    Some(given) => given,
                    None => RpcSeverity::Error,
                },
                message: message@,
            }),
    {
        RpcResponse {
            is_error: true,
            severity: match severity {
                Some(given) => given,
                None => RpcSeverity::Error,
            },
            message,
        }
    }
}

/// The kind of a message that a client has sent.
#[derive(Clone, Copy, Debug, PartialEq, Eq, Structural)]
pub enum MessageKind {
    Text,
    Binary,
    Close,
    Other,
}

/// What the server does after a message.
#[derive(Debug)]
pub enum ConnectionStep {
    /// Read the next message.
    Continue,
    /// Post the event to the render loop, send the response, and read the
    /// next message.
    Reply { event: CubensisEvent, response: RpcResponse },
    /// The client has left: end the connection.
    Close,
}

/// The mathematical value of a [`ConnectionStep`].
pub enum ConnectionStepView {
    Continue,
    Reply { event: CubensisEventView, response: RpcResponseView },
    Close,
}

impl View for ConnectionStep {
    type V = ConnectionStepView;

    open spec fn view(&self) -> ConnectionStepView {
        match *self {
            ConnectionStep::Continue => ConnectionStepView::Continue,
            ConnectionStep::Reply { event, response } => ConnectionStepView::Reply {
                event: event@,
                response: response@,
            },
            ConnectionStep::Close => ConnectionStepView::Close,
        }
    }
}

/// What a request comes to: the event for the render loop and the
/// response for the client.
pub open spec fn spec_handle_command(command: RpcRequest) -> ConnectionStepView {
    match command {
        RpcRequest::SetProject { project_name } => ConnectionStepView::Reply {
            event: CubensisEventView::SceneChange(project_name@),
            response: RpcResponseView {
                is_error: false,
                severity: RpcSeverity::Info,
                message: "Successfully loaded scene"@,
            },
        },
    }
}

/// What a message comes to, where `request` is the request that a text or
/// binary message holds, if it holds one: a message to close ends the
/// connection; a request is answered; everything else is passed over.
pub open spec fn spec_handle_message(
    kind: MessageKind,
    request: Option<RpcRequest>,
) -> ConnectionStepView {
    match kind {
        MessageKind::Close => ConnectionStepView::Close,
        MessageKind::Other => ConnectionStepView::Continue,
        _ => match request {
            Some(command) => spec_handle_command(command),
            None => ConnectionStepView::Continue,
        },
    }
}

/// Answers a request.
pub fn handle_command(command: RpcRequest) -> (step: ConnectionStep)
    ensures
        step@ == spec_handle_command(command),
{
    match command {
        RpcRequest::SetProject { project_name } => ConnectionStep::Reply {
            event: CubensisEvent::SceneChange(project_name),
            response: RpcResponse::success(
                Some("Successfully loaded scene".to_owned()),
                Some(RpcSeverity::Info),
            ),
        },
    }
}

/// Decides what follows a message of a client.
pub fn handle_message(kind: MessageKind, request: Option<RpcRequest>) -> (step: ConnectionStep)
    ensures
        step@ == spec_handle_message(kind, request),
{
    match kind {
        MessageKind::Close => ConnectionStep::Close,
        MessageKind::Other => ConnectionStep::Continue,
        _ => match request {
            Some(command) => handle_command(command),
            None => ConnectionStep::Continue,
        },
    }
}

/// Why a connection ended.
#[derive(Clone, Copy, Debug, PartialEq, Eq, Structural)]
pub enum ConnectionError {
    ConnectionClosed,
    Io,
    Other,
}

/// Whether the end of a connection only means that the client has left.
pub fn is_disconnect(error: ConnectionError) -> (left: bool)
    ensures
        left == (error == ConnectionError::ConnectionClosed || error == ConnectionError::Io),
{
    match error {
        ConnectionError::ConnectionClosed => true,
        ConnectionError::Io => true,
        ConnectionError::Other => false,
    }
}

} // verus!
