//! Data model of the broadcast engine and its wire protocol.

use vstd::prelude::*;

verus! {

/// The outcome a waiting caller receives for one recipient: the chosen
/// option, or the reason no choice arrived.
pub type BauResponse = Result<String, BauBotError>;

/// Per-recipient failure reported by the dispatch engine.  A failure for one
/// recipient never aborts delivery to the others.
#[derive(Debug, Clone, Copy, PartialEq, Eq, Structural)]
pub enum BauBotError {
    /// The recipient could not be resolved to a transport address, or the
    /// gateway failed to deliver the message.
    Uncontactable,
    /// No reply arrived within the configured window, or the reply slot was
    /// abandoned before an outcome was produced.
    Timeout,
}

/// The optional multiple-choice prompt attached to a broadcast request: a
/// reply deadline in milliseconds and a grid of button labels.  An empty grid
/// means no reply is solicited, whatever the per-recipient flags say.
#[derive(Debug, Clone)]
pub struct RequestedResponses {
    pub timeout: u64,
    pub keyboard: Vec<Vec<String>>,
}

impl Default for RequestedResponses {
    /// An empty prompt: no options and a zero deadline.
    fn default() -> (d: Self)
        ensures
            d.timeout == 0,
            d.keyboard@ =~= Seq::<Vec<String>>::empty(),
    {
        RequestedResponses { timeout: 0, keyboard: Vec::new() }
    }
}

/// A broadcast request: a sender, recipients each flagged with whether a
/// reply is wanted from them, the message text, and the optional prompt.
/// Immutable after submission.
#[derive(Debug, Clone)]
pub struct BauMessage {
    pub sender: String,
    /// Recipient names, each with a flag that marks whether the caller awaits
    /// a reply from that recipient.  Requests decoded from the wire flag
    /// every recipient, and the prompt grid decides whether a reply is in
    /// fact solicited.
    pub recipients: Vec<(String, bool)>,
    pub message: String,
    pub responses: RequestedResponses,
}

/// The mathematical content of a [`BauMessage`].
pub struct MessageModel {
    pub sender: Seq<char>,
    pub recipients: Seq<(Seq<char>, bool)>,
    pub message: Seq<char>,
    pub timeout: u64,
    pub keyboard: Seq<Seq<Seq<char>>>,
}

impl BauMessage {
    /// The message as plain mathematical values.
    pub open spec fn model(&self) -> MessageModel {
        MessageModel {
            sender: self.sender@,
            recipients: self.recipients.deep_view(),
            message: self.message@,
            timeout: self.responses.timeout,
            keyboard: self.responses.keyboard.deep_view(),
        }
    }
}

/// Rejection of a request that could not be decoded.
#[derive(Debug, Clone)]
pub enum SerializeError {
    /// The text was not valid JSON, or a present field held a value of the
    /// wrong shape.  Carries a description of the fault.
    InvalidJson(String),
    /// A required field was absent.  Carries the field name.
    InvalidField(String),
}

/// The content of a [`SerializeError`]: which variant, with the text it
/// carries.
pub enum SerializeErrorModel {
    Json(Seq<char>),
    Field(Seq<char>),
}

impl SerializeError {
    /// The error as plain mathematical values.
    pub open spec fn model(&self) -> SerializeErrorModel {
        match self {
            SerializeError::InvalidJson(s) => SerializeErrorModel::Json(s@),
            SerializeError::InvalidField(s) => SerializeErrorModel::Field(s@),
        }
    }
}

/// One message written back to a protocol client.
#[derive(Debug)]
pub enum BauServerResponse {
    /// The outcome for one recipient of a correctly decoded request.
    Recipient { recipient: String, response: BauResponse },
    /// The request was rejected before dispatch.  Reported once per
    /// connection.
    InvalidData(SerializeError),
}

/// The mathematical content of a [`BauServerResponse`].
pub enum ResponseModel {
    Recipient { recipient: Seq<char>, response: Result<Seq<char>, BauBotError> },
    InvalidData(SerializeErrorModel),
}

impl BauServerResponse {
    /// The response as plain mathematical values.
    pub open spec fn model(&self) -> ResponseModel {
        match self {
            BauServerResponse::Recipient { recipient, response } => ResponseModel::Recipient {
                recipient: recipient@,
                response: match response {
                    Ok(s) => Ok(s@),
                    Err(e) => Err(*e),
                },
            },
            BauServerResponse::InvalidData(e) => ResponseModel::InvalidData(e.model()),
        }
    }
}

/// Failure of a protocol client to complete a send.
#[derive(Debug)]
pub enum SendError {
    /// The transport failed while connecting or writing.
    Io(std::io::Error),
    /// The payload could not be encoded as a valid request, so nothing was
    /// sent.
    InvalidData(SerializeError),
}

impl From<SerializeError> for SendError {
    fn from(value: SerializeError) -> (r: Self) {
        SendError::InvalidData(value)
    }
}

impl vstd::std_specs::convert::FromSpecImpl<SerializeError> for SendError {
    open spec fn obeys_from_spec() -> bool {
        true
    }

    open spec fn from_spec(value: SerializeError) -> Self {
        SendError::InvalidData(value)
    }
}

impl From<std::io::Error> for SendError {
    fn from(value: std::io::Error) -> (r: Self) {
        SendError::Io(value)
    }
}

impl vstd::std_specs::convert::FromSpecImpl<std::io::Error> for SendError {
    open spec fn obeys_from_spec() -> bool {
        true
    }

    open spec fn from_spec(value: std::io::Error) -> Self {
        SendError::Io(value)
    }
}

/// Declares the standard library's opaque I/O error type, so that a
/// [`SendError`] can carry the transport failure it reports.
#[verifier::external_type_specification]
#[verifier::external_body]
pub struct ExIoError(std::io::Error);

} // verus!
