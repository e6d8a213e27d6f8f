//! The Hachimi IPC protocol: commands, responses, their JSON form on the
//! wire, and the client that turns one command into one request and one
//! answer into a result.
//!
//! Every message is one flat JSON object. Its member `type` names the variant;
//! the variant's own fields stand beside it.

use crate::json::fields_view;
use crate::json::find;
use crate::json::json_object;
use crate::json::lookup;
use crate::json::member_text;
use crate::json::members_text;
use crate::json::object_text;
use crate::json::parse_object;
use crate::json::plain;
use crate::json::writable;
use crate::json::write_object;
use crate::json::JsonField;
use crate::json::JsonFieldView;
use crate::json::JsonValue;
use crate::json::JsonValueView;
use crate::text::decimal;
use crate::text::push_decimal;
use crate::text::same_text;
use vstd::prelude::*;

verus! {

/// A command for the Hachimi process.
#[derive(Debug, Clone, Copy, PartialEq, Eq, Structural)]
pub enum HachimiCommand {
    /// Jump to a block of the story that is playing.
    StoryGotoBlock { block_id: u32, incremental: bool },
    /// Read the localized data from disk again.
    ReloadLocalizedData,
}

/// What the Hachimi process answers.
#[derive(Debug, Clone, PartialEq, Eq)]
#[allow(inconsistent_fields)]
pub enum HachimiResponse {
    /// The command was carried out. On the wire its tag is `Ok`.
    Success,
    /// The command failed on the remote side.
    Error { message: Option<String> },
    /// The answer to a handshake.
    HelloWorld { message: String },
}

/// The mathematical value of a [`HachimiResponse`].
#[allow(inconsistent_fields)]
pub enum ResponseView {
    Success,
    Error { message: Option<Seq<char>> },
    HelloWorld { message: Seq<char> },
}

impl View for HachimiResponse {
    type V = ResponseView;

    open spec fn view(&self) -> ResponseView {
        match *self {
            HachimiResponse::Success => ResponseView::Success,
            HachimiResponse::Error { message } => ResponseView::Error {
                message: match message {
                    Some(m) => Some(m@),
                    None => None,
                },
            },
            HachimiResponse::HelloWorld { message } => ResponseView::HelloWorld {
                message: message@,
            },
        }
    }
}

/// Why a JSON body is not a message of the protocol.
#[derive(Debug, Clone, Copy, PartialEq, Eq, Structural)]
pub enum DecodeError {
    /// The body is not one JSON object.
    NotAnObject,
    /// The object has no member `type`.
    MissingTag,
    /// The member `type` is not a string.
    InvalidTag,
    /// The member `type` names no variant.
    UnknownTag,
    /// A field that the variant requires is absent.
    MissingField,
    /// A field of the variant holds a value of the wrong kind or out of range.
    InvalidField,
}

/// The wire name of a command's variant.
pub open spec fn command_name(command: HachimiCommand) -> Seq<char> {
    match command {
        HachimiCommand::StoryGotoBlock { .. } => "StoryGotoBlock"@,
        HachimiCommand::ReloadLocalizedData => "ReloadLocalizedData"@,
    }
}

/// The JSON object that stands for a command: the tag first, then the
/// variant's fields in the order of their declaration.
pub open spec fn command_object(command: HachimiCommand) -> Seq<JsonFieldView> {
    let tag = JsonFieldView {
        name: "type"@,
        value: JsonValueView::Text(command_name(command)),
    };
    match command {
        HachimiCommand::StoryGotoBlock { block_id, incremental } => seq![
            tag,
            JsonFieldView {
                name: "block_id"@,
                value: JsonValueView::Number(Some(block_id as u64)),
            },
            JsonFieldView { name: "incremental"@, value: JsonValueView::Bool(incremental) },
        ],
        HachimiCommand::ReloadLocalizedData => seq![tag],
    }
}

/// The command that a JSON object stands for. The tag decides the variant;
/// then the variant's fields are read, `block_id` before `incremental`.
/// Members that the variant does not know are passed over.
pub open spec fn command_of_object(fields: Seq<JsonFieldView>) -> Result<
    HachimiCommand,
    DecodeError,
> {
    match lookup(fields, "type"@) {
        None => Err(DecodeError::MissingTag),
        Some(JsonValueView::Text(tag)) => if tag == "StoryGotoBlock"@ {
            match lookup(fields, "block_id"@) {
                None => Err(DecodeError::MissingField),
                Some(JsonValueView::Number(Some(id))) => if id <= u32::MAX {
                    match lookup(fields, "incremental"@) {
                        None => Err(DecodeError::MissingField),
                        Some(JsonValueView::Bool(incremental)) => Ok(
                            HachimiCommand::StoryGotoBlock { block_id: id as u32, incremental },
                        ),
                        Some(_) => Err(DecodeError::InvalidField),
                    }
                } else {
                    Err(DecodeError::InvalidField)
                },
                Some(_) => Err(DecodeError::InvalidField),
            }
        } else if tag == "ReloadLocalizedData"@ {
            Ok(HachimiCommand::ReloadLocalizedData)
        } else {
            Err(DecodeError::UnknownTag)
        },
        Some(_) => Err(DecodeError::InvalidTag),
    }
}

/// The response that a JSON object stands for. The tag decides the variant.
/// `Error` takes its message from the member `message`: a string, or nothing
/// where the member is absent or `null`. `HelloWorld` requires the member to
/// be a string. Members that the variant does not know are passed over.
pub open spec fn response_of_object(fields: Seq<JsonFieldView>) -> Result<
    ResponseView,
    DecodeError,
> {
    match lookup(fields, "type"@) {
        None => Err(DecodeError::MissingTag),
        Some(JsonValueView::Text(tag)) => if tag == "Ok"@ {
            Ok(ResponseView::Success)
        } else if tag == "Error"@ {
            match lookup(fields, "message"@) {
                None => Ok(ResponseView::Error { message: None }),
                Some(JsonValueView::Null) => Ok(ResponseView::Error { message: None }),
                Some(JsonValueView::Text(m)) => Ok(ResponseView::Error { message: Some(m) }),
                Some(_) => Err(DecodeError::InvalidField),
            }
        } else if tag == "HelloWorld"@ {
            match lookup(fields, "message"@) {
                None => Err(DecodeError::MissingField),
                Some(JsonValueView::Text(m)) => Ok(ResponseView::HelloWorld { message: m }),
                Some(_) => Err(DecodeError::InvalidField),
            }
        } else {
            Err(DecodeError::UnknownTag)
        },
        Some(_) => Err(DecodeError::InvalidTag),
    }
}

/// The command that a body decodes to.
pub open spec fn decoded_command(body: Seq<u8>) -> Result<HachimiCommand, DecodeError> {
    match json_object(body) {
        None => Err(DecodeError::NotAnObject),
        Some(fields) => command_of_object(fields),
    }
}

/// The response that a body decodes to.
pub open spec fn decoded_response(body: Seq<u8>) -> Result<ResponseView, DecodeError> {
    match json_object(body) {
        None => Err(DecodeError::NotAnObject),
        Some(fields) => response_of_object(fields),
    }
}

/// A decoded response, by its view.
pub open spec fn decoded_view(decoded: Result<HachimiResponse, DecodeError>) -> Result<
    ResponseView,
    DecodeError,
> {
    match decoded {
        Ok(response) => Ok(response@),
        Err(e) => Err(e),
    }
}

/// The exact text of a command on the wire.
pub open spec fn command_text(command: HachimiCommand) -> Seq<char> {
    match command {
        HachimiCommand::StoryGotoBlock { block_id, incremental } => {
            "{\"type\":\"StoryGotoBlock\",\"block_id\":"@ + decimal(block_id as nat)
                + ",\"incremental\":"@ + (if incremental {
                "true"@
            } else {
                "false"@
            }) + "}"@
        },
        HachimiCommand::ReloadLocalizedData => "{\"type\":\"ReloadLocalizedData\"}"@,
    }
}

impl HachimiCommand {
    /// The JSON object that stands for this command.
    pub fn to_object(&self) -> (fields: Vec<JsonField>)
        ensures
            fields_view(fields@) == command_object(*self),
    {
        let mut fields: Vec<JsonField> = Vec::new();
        match *self {
            HachimiCommand::StoryGotoBlock { block_id, incremental } => {
                fields.push(
                    JsonField {
                        name: String::from_str("type"),
                        value: JsonValue::Text(String::from_str("StoryGotoBlock")),
                    },
                );
                fields.push(
                    JsonField {
                        name: String::from_str("block_id"),
                        value: JsonValue::Number(Some(block_id as u64)),
                    },
                );
                fields.push(
                    JsonField {
                        name: String::from_str("incremental"),
                        value: JsonValue::Bool(incremental),
                    },
                );
            },
            HachimiCommand::ReloadLocalizedData => {
                fields.push(
                    JsonField {
                        name: String::from_str("type"),
                        value: JsonValue::Text(String::from_str("ReloadLocalizedData")),
                    },
                );
            },
        }
        assert(fields_view(fields@) == command_object(*self));
        fields
    }

    /// The text of this command on the wire: compact JSON, the tag first.
    pub fn encode(&self) -> (text: String)
        ensures
            text@ == command_text(*self),
    {
        let fields = self.to_object();
        proof {
            lemma_command_text(*self);
        }
        write_object(&fields)
    }

    /// Reads a command from the members of a JSON object.
    pub fn from_object(fields: &Vec<JsonField>) -> (command: Result<HachimiCommand, DecodeError>)
        ensures
            command == command_of_object(fields_view(fields@)),
    {
        match find(fields, "type") {
            None => Err(DecodeError::MissingTag),
            Some(JsonValue::Text(tag)) => {
                if same_text(tag.as_str(), "StoryGotoBlock") {
                    let block_id: u32 = match find(fields, "block_id") {
                        None => {
                            return Err(DecodeError::MissingField);
                        },
                        Some(JsonValue::Number(Some(id))) => {
                            if *id > 0xffff_ffff {
                                return Err(DecodeError::InvalidField);
                            }
                            *id as u32
                        },
                        Some(_) => {
                            return Err(DecodeError::InvalidField);
                        },
                    };
                    match find(fields, "incremental") {
                        None => Err(DecodeError::MissingField),
                        Some(JsonValue::Bool(incremental)) => Ok(
                            HachimiCommand::StoryGotoBlock { block_id, incremental: *incremental },
                        ),
                        Some(_) => Err(DecodeError::InvalidField),
                    }
                } else if same_text(tag.as_str(), "ReloadLocalizedData") {
                    Ok(HachimiCommand::ReloadLocalizedData)
                } else {
                    Err(DecodeError::UnknownTag)
                }
            },
            Some(_) => Err(DecodeError::InvalidTag),
        }
    }

    /// Decodes a command from a JSON body.
    pub fn decode(body: &[u8]) -> (command: Result<HachimiCommand, DecodeError>)
        ensures
            command == decoded_command(body@),
    {
        match parse_object(body) {
            None => Err(DecodeError::NotAnObject),
            Some(fields) => HachimiCommand::from_object(&fields),
        }
    }
}

impl HachimiResponse {
    /// Reads a response from the members of a JSON object.
    pub fn from_object(fields: &Vec<JsonField>) -> (response: Result<HachimiResponse, DecodeError>)
        ensures
            decoded_view(response) == response_of_object(fields_view(fields@)),
    {
        match find(fields, "type") {
            None => Err(DecodeError::MissingTag),
            Some(JsonValue::Text(tag)) => {
                if same_text(tag.as_str(), "Ok") {
                    Ok(HachimiResponse::Success)
                } else if same_text(tag.as_str(), "Error") {
                    match find(fields, "message") {
                        None => Ok(HachimiResponse::Error { message: None }),
                        Some(JsonValue::Null) => Ok(HachimiResponse::Error { message: None }),
                        Some(JsonValue::Text(m)) => Ok(
                            HachimiResponse::Error { message: Some(m.clone()) },
                        ),
                        Some(_) => Err(DecodeError::InvalidField),
                    }
                } else if same_text(tag.as_str(), "HelloWorld") {
                    match find(fields, "message") {
                        None => Err(DecodeError::MissingField),
                        Some(JsonValue::Text(m)) => Ok(
                            HachimiResponse::HelloWorld { message: m.clone() },
                        ),
                        Some(_) => Err(DecodeError::InvalidField),
                    }
                } else {
                    Err(DecodeError::UnknownTag)
                }
            },
            Some(_) => Err(DecodeError::InvalidTag),
        }
    }

    /// Decodes a response from a JSON body.
    pub fn decode(body: &[u8]) -> (response: Result<HachimiResponse, DecodeError>)
        ensures
            decoded_view(response) == decoded_response(body@),
    {
        match parse_object(body) {
            None => Err(DecodeError::NotAnObject),
            Some(fields) => HachimiResponse::from_object(&fields),
        }
    }
}

/// Every character of the protocol's own names is plain, so the object of a
/// command has an exact text.
pub proof fn lemma_command_writable(command: HachimiCommand)
    ensures
        writable(command_object(command)),
{
    reveal_strlit("type");
    reveal_strlit("block_id");
    reveal_strlit("incremental");
    reveal_strlit("StoryGotoBlock");
    reveal_strlit("ReloadLocalizedData");
    assert(plain("type"@));
    assert(plain("block_id"@));
    assert(plain("incremental"@));
    assert(plain("StoryGotoBlock"@));
    assert(plain("ReloadLocalizedData"@));
}

/// The object of a command, written as compact JSON, is the command's wire
/// text letter for letter.
pub proof fn lemma_command_text(command: HachimiCommand)
    ensures
        writable(command_object(command)),
        object_text(command_object(command)) == command_text(command),
{
    lemma_command_writable(command);
    reveal_strlit("type");
    reveal_strlit("block_id");
    reveal_strlit("incremental");
    reveal_strlit("StoryGotoBlock");
    reveal_strlit("ReloadLocalizedData");
    reveal_strlit("true");
    reveal_strlit("false");
    reveal_strlit("}");
    reveal_strlit(",\"incremental\":");
    reveal_strlit("{\"type\":\"StoryGotoBlock\",\"block_id\":");
    reveal_strlit("{\"type\":\"ReloadLocalizedData\"}");
    let fields = command_object(command);
    match command {
        HachimiCommand::StoryGotoBlock { block_id, incremental } => {
            let two = fields.drop_last();
            let one = two.drop_last();
            assert(members_text(one) == member_text(fields[0]));
            assert(members_text(two) == members_text(one) + seq![','] + member_text(fields[1]));
            assert(members_text(fields) == members_text(two) + seq![','] + member_text(
                fields[2],
            ));
            assert(object_text(fields) == command_text(command));
        },
        HachimiCommand::ReloadLocalizedData => {
            assert(members_text(fields) == member_text(fields[0]));
            assert(object_text(fields) == command_text(command));
        },
    }
}

/// Reading back the object of a command gives the command again, for every
/// command: a body that is read as that object decodes to the command. And
/// the object's first member is the tag `type`, whose value is the name of
/// the command's variant.
pub proof fn lemma_command_round_trip(command: HachimiCommand)
    ensures
        command_of_object(command_object(command)) == Ok::<HachimiCommand, DecodeError>(command),
        forall|body: Seq<u8>|
            json_object(body) == Some(command_object(command)) ==> #[trigger] decoded_command(body)
                == Ok::<HachimiCommand, DecodeError>(command),
        command_object(command)[0].name == "type"@,
        command_object(command)[0].value == JsonValueView::Text(command_name(command)),
{
    reveal_strlit("type");
    reveal_strlit("block_id");
    reveal_strlit("incremental");
    reveal_strlit("StoryGotoBlock");
    reveal_strlit("ReloadLocalizedData");
    let fields = command_object(command);
    assert(lookup(fields, "type"@) == Some(fields[0].value));
    assert("StoryGotoBlock"@.len() == 14 && "ReloadLocalizedData"@.len() == 19);
    if command is StoryGotoBlock {
        let tail1 = fields.drop_first();
        let tail2 = tail1.drop_first();
        assert(tail1[0] == fields[1]);
        assert(tail2[0] == fields[2]);
        assert("type"@.len() == 4 && "block_id"@.len() == 8 && "incremental"@.len() == 11);
        assert(lookup(tail1, "block_id"@) == Some(fields[1].value));
        assert(lookup(fields, "block_id"@) == Some(fields[1].value));
        assert(lookup(tail2, "incremental"@) == Some(fields[2].value));
        assert(lookup(tail1, "incremental"@) == Some(fields[2].value));
        assert(lookup(fields, "incremental"@) == Some(fields[2].value));
        assert((command->block_id as u64) as u32 == command->block_id);
    }
}

/// The port on which the Hachimi process listens. It cannot be configured.
pub const HACHIMI_PORT: u16 = 50433;

/// The deadline for one whole round trip: connect, send and receive.
pub const REQUEST_TIMEOUT_SECS: u64 = 30;

/// Why a call failed.
#[derive(Debug, Clone, PartialEq, Eq)]
pub enum IpcError {
    /// No complete HTTP response arrived: the connection failed, was aborted,
    /// or ran into the deadline (`timed_out`).
    Transport { timed_out: bool, detail: String },
    /// A complete response arrived with a status outside 200 to 299. Its
    /// body was not read.
    Http { status: u16 },
    /// The body of a successful response is no message of the protocol.
    Decode { reason: DecodeError },
    /// The remote side reported that the command failed.
    Remote { message: String },
}

/// The mathematical value of an [`IpcError`].
pub enum IpcErrorView {
    Transport { timed_out: bool, detail: Seq<char> },
    Http { status: u16 },
    Decode { reason: DecodeError },
    Remote { message: Seq<char> },
}

impl View for IpcError {
    type V = IpcErrorView;

    open spec fn view(&self) -> IpcErrorView {
        match *self {
            IpcError::Transport { timed_out, detail } => IpcErrorView::Transport {
                timed_out,
                detail: detail@,
            },
            IpcError::Http { status } => IpcErrorView::Http { status },
            IpcError::Decode { reason } => IpcErrorView::Decode { reason },
            IpcError::Remote { message } => IpcErrorView::Remote { message: message@ },
        }
    }
}

/// The HTTP method of a request. The protocol knows one.
#[derive(Debug, Clone, Copy, PartialEq, Eq, Structural)]
pub enum Method {
    Post,
}

/// One HTTP request: `body`, a JSON text, goes to `url` by `method` and is
/// to be answered within `timeout_secs` seconds, counted from the start of
/// the connection to the end of the response.
#[derive(Debug, Clone, PartialEq, Eq)]
pub struct Request {
    pub method: Method,
    pub url: String,
    pub body: String,
    pub timeout_secs: u64,
}

/// The mathematical value of a [`Request`].
pub struct RequestView {
    pub method: Method,
    pub url: Seq<char>,
    pub body: Seq<char>,
    pub timeout_secs: u64,
}

impl View for Request {
    type V = RequestView;

    open spec fn view(&self) -> RequestView {
        RequestView {
            method: self.method,
            url: self.url@,
            body: self.body@,
            timeout_secs: self.timeout_secs,
        }
    }
}

/// How the transport fared with one request.
#[derive(Debug, Clone, PartialEq, Eq)]
pub enum Exchange {
    /// No complete response arrived.
    Failed { timed_out: bool, detail: String },
    /// A complete response arrived.
    Received { status: u16, body: Vec<u8> },
}

/// The mathematical value of an [`Exchange`].
pub enum ExchangeView {
    Failed { timed_out: bool, detail: Seq<char> },
    Received { status: u16, body: Seq<u8> },
}

impl View for Exchange {
    type V = ExchangeView;

    open spec fn view(&self) -> ExchangeView {
        match *self {
            Exchange::Failed { timed_out, detail } => ExchangeView::Failed {
                timed_out,
                detail: detail@,
            },
            Exchange::Received { status, body } => ExchangeView::Received { status, body: body@ },
        }
    }
}

/// The result of a call, by its view.
pub open spec fn outcome_view(result: Result<HachimiResponse, IpcError>) -> Result<
    ResponseView,
    IpcErrorView,
> {
    match result {
        Ok(response) => Ok(response@),
        Err(e) => Err(e@),
    }
}

/// Whether an HTTP status reports success: 200 to 299.
pub open spec fn is_success(status: u16) -> bool {
    200 <= status <= 299
}

/// What a decoded body means to the caller. A body that does not decode is a
/// decode error. The response `Error` is a remote error, with the response's
/// message or, where it has none, `Unknown error`. The other responses are
/// the result.
pub open spec fn settled(decoded: Result<ResponseView, DecodeError>) -> Result<
    ResponseView,
    IpcErrorView,
> {
    match decoded {
        Err(reason) => Err(IpcErrorView::Decode { reason }),
        Ok(ResponseView::Error { message }) => Err(
            IpcErrorView::Remote {
                message: match message {
                    Some(m) => m,
                    None => "Unknown error"@,
                },
            },
        ),
        Ok(response) => Ok(response),
    }
}

/// What an exchange means to the caller. The steps come in this order: a
/// failed transport; a status outside 200 to 299, whatever the body holds;
/// the body.
pub open spec fn outcome(exchange: ExchangeView) -> Result<ResponseView, IpcErrorView> {
    match exchange {
        ExchangeView::Failed { timed_out, detail } => Err(
            IpcErrorView::Transport { timed_out, detail },
        ),
        ExchangeView::Received { status, body } => if is_success(status) {
            settled(decoded_response(body))
        } else {
            Err(IpcErrorView::Http { status })
        },
    }
}

/// The URL of the Hachimi process at `address`: plain HTTP, the fixed port,
/// the path `/`, no query.
pub open spec fn url_text(address: Seq<char>) -> Seq<char> {
    "http://"@ + address + ":50433/"@
}

/// The text of a decode error.
pub open spec fn decode_error_text(reason: DecodeError) -> Seq<char> {
    match reason {
        DecodeError::NotAnObject => "the body is not a JSON object"@,
        DecodeError::MissingTag => "the member `type` is missing"@,
        DecodeError::InvalidTag => "the member `type` is not a string"@,
        DecodeError::UnknownTag => "the member `type` names no known variant"@,
        DecodeError::MissingField => "a required field is missing"@,
        DecodeError::InvalidField => "a field holds a value of the wrong kind"@,
    }
}

/// The text of an error.
pub open spec fn error_text(error: IpcErrorView) -> Seq<char> {
    match error {
        IpcErrorView::Transport { timed_out, detail } => "Transport error: "@ + detail,
        IpcErrorView::Http { status } => "HTTP error: "@ + decimal(status as nat),
        IpcErrorView::Decode { reason } => "Decode error: "@ + decode_error_text(reason),
        IpcErrorView::Remote { message } => "Hachimi error: "@ + message,
    }
}

impl DecodeError {
    /// A sentence that says what is wrong with the body.
    pub fn message(&self) -> (text: &'static str)
        ensures
            text@ == decode_error_text(*self),
    {
        match self {
            DecodeError::NotAnObject => "the body is not a JSON object",
            DecodeError::MissingTag => "the member `type` is missing",
            DecodeError::InvalidTag => "the member `type` is not a string",
            DecodeError::UnknownTag => "the member `type` names no known variant",
            DecodeError::MissingField => "a required field is missing",
            DecodeError::InvalidField => "a field holds a value of the wrong kind",
        }
    }
}

impl IpcError {
    /// The error as one line of text: its kind, then what it carries.
    pub fn message(&self) -> (text: String)
        ensures
            text@ == error_text(self@),
    {
        match self {
            IpcError::Transport { timed_out, detail } => {
                String::from_str("Transport error: ").concat(detail.as_str())
            },
            IpcError::Http { status } => {
                let mut text = String::from_str("HTTP error: ");
                push_decimal(&mut text, *status as u64);
                text
            },
            IpcError::Decode { reason } => {
                String::from_str("Decode error: ").concat(reason.message())
            },
            IpcError::Remote { message } => {
                String::from_str("Hachimi error: ").concat(message.as_str())
            },
        }
    }
}

/// The client of one Hachimi process. It holds where the process listens and
/// nothing else: a client is made once and its target never changes.
#[derive(Debug, Clone, PartialEq, Eq)]
pub struct HachimiIpc {
    address: String,
}

impl HachimiIpc {
    /// The host that this client talks to.
    pub closed spec fn target(&self) -> Seq<char> {
        self.address@
    }

    /// The request that carries `command` to this client's target.
    pub open spec fn request_view(&self, command: HachimiCommand) -> RequestView {
        RequestView {
            method: Method::Post,
            url: url_text(self.target()),
            body: command_text(command),
            timeout_secs: REQUEST_TIMEOUT_SECS,
        }
    }

    /// A client for the Hachimi process on host `address`.
    pub fn new(address: String) -> (ipc: Self)
        ensures
            ipc.target() == address@,
    {
        HachimiIpc { address }
    }

    /// The host that this client talks to.
    pub fn address(&self) -> (address: &str)
        ensures
            address@ == self.target(),
    {
        self.address.as_str()
    }

    /// The port that this client talks to.
    pub fn port(&self) -> (port: u16)
        ensures
            port == HACHIMI_PORT,
    {
        HACHIMI_PORT
    }

    /// Where the requests go.
    pub fn url(&self) -> (url: String)
        ensures
            url@ == url_text(self.target()),
    {
        let mut url = String::from_str("http://");
        url.append(self.address.as_str());
        url.append(":");
        push_decimal(&mut url, HACHIMI_PORT as u64);
        url.append("/");
        proof {
            reveal_strlit(":");
            reveal_strlit("/");
            reveal_strlit(":50433/");
            reveal_with_fuel(decimal, 5);
            assert(":"@ + decimal(HACHIMI_PORT as nat) + "/"@ == ":50433/"@);
            assert(url@ == "http://"@ + self.address@ + (":"@ + decimal(HACHIMI_PORT as nat) + "/"@));
        }
        url
    }

    /// The request that carries `command`.
    pub fn request(&self, command: HachimiCommand) -> (request: Request)
        ensures
            request@ == self.request_view(command),
    {
        Request {
            method: Method::Post,
            url: self.url(),
            body: command.encode(),
            timeout_secs: REQUEST_TIMEOUT_SECS,
        }
    }

    /// Judges the status of a response, before anything is read of the body.
    pub fn check_status(status: u16) -> (verdict: Result<(), IpcError>)
        ensures
            match verdict {
                Ok(_) => is_success(status),
                Err(e) => !is_success(status) && e@ == (IpcErrorView::Http { status }),
            },
    {
        if 200 <= status && status <= 299 {
            Ok(())
        } else {
            Err(IpcError::Http { status })
        }
    }

    /// Turns a decoded body into the result of the call.
    pub fn settle(decoded: Result<HachimiResponse, DecodeError>) -> (result: Result<
        HachimiResponse,
        IpcError,
    >)
        ensures
            outcome_view(result) == settled(decoded_view(decoded)),
    {
        match decoded {
            Err(reason) => Err(IpcError::Decode { reason }),
            Ok(HachimiResponse::Error { message }) => {
                let message = match message {
                    Some(m) => m,
                    None => String::from_str("Unknown error"),
                };
                Err(IpcError::Remote { message })
            },
            Ok(response) => Ok(response),
        }
    }

    /// Reads the body of a response whose status reported success.
    pub fn read_body(body: &[u8]) -> (result: Result<HachimiResponse, IpcError>)
        ensures
            outcome_view(result) == settled(decoded_response(body@)),
    {
        HachimiIpc::settle(HachimiResponse::decode(body))
    }

    /// Turns what the transport reports into the result of the call.
    pub fn classify(exchange: Exchange) -> (result: Result<HachimiResponse, IpcError>)
        ensures
            outcome_view(result) == outcome(exchange@),
    {
        match exchange {
            Exchange::Failed { timed_out, detail } => Err(IpcError::Transport { timed_out, detail }),
            Exchange::Received { status, body } => {
                match HachimiIpc::check_status(status) {
                    Err(e) => Err(e),
                    Ok(_) => HachimiIpc::read_body(body.as_slice()),
                }
            },
        }
    }

    /// Sends `command` and returns what came of it.
    ///
    /// `send` is the transport. It is handed the request, once, and reports
    /// the exchange; the result is what that exchange means. There is one
    /// attempt: nothing is sent again.
    pub fn call<F: FnOnce(Request) -> Exchange>(&self, command: HachimiCommand, send: F) -> (result:
        Result<HachimiResponse, IpcError>)
        requires
            forall|request: Request|
                request@ == self.request_view(command) ==> #[trigger] send.requires((request,)),
        ensures
            exists|request: Request, exchange: Exchange|
                request@ == self.request_view(command) && #[trigger] send.ensures(
                    (request,),
                    exchange,
                ) && outcome_view(result) == outcome(exchange@),
            result matches Ok(response) ==> !(response is Error),
    {
        let request = self.request(command);
        let exchange = send(request);
        HachimiIpc::classify(exchange)
    }

    /// Sends `command` as [`HachimiIpc::call`] does. A caller that shows
    /// progress while it waits does so inside `send`.
    pub fn call_with_progress<F: FnOnce(Request) -> Exchange>(
        &self,
        command: HachimiCommand,
        send: F,
    ) -> (result: Result<HachimiResponse, IpcError>)
        requires
            forall|request: Request|
                request@ == self.request_view(command) ==> #[trigger] send.requires((request,)),
        ensures
            exists|request: Request, exchange: Exchange|
                request@ == self.request_view(command) && #[trigger] send.ensures(
                    (request,),
                    exchange,
                ) && outcome_view(result) == outcome(exchange@),
            result matches Ok(response) ==> !(response is Error),
    {
        self.call(command, send)
    }
}

impl Default for HachimiIpc {
    /// The client for the Hachimi process on this machine.
    fn default() -> (ipc: Self)
        ensures
            ipc.target() == "127.0.0.1"@,
    {
        HachimiIpc::new(String::from_str("127.0.0.1"))
    }
}

/// A response that arrived with a successful status reaches the caller as
/// follows, for every response: `Ok` and `HelloWorld` are the result as they
/// are; `Error` is a remote error, whether it has a message or not. So no
/// result is ever `Error`.
pub proof fn lemma_response_classification(status: u16, body: Seq<u8>, response: ResponseView)
    ensures
        response is Success || response is HelloWorld ==> settled(Ok(response)) == Ok::<
            ResponseView,
            IpcErrorView,
        >(response),
        response is Error ==> settled(Ok(response)) is Err && settled(
            Ok(response),
        )->Err_0 is Remote,
        is_success(status) && decoded_response(body) == Ok::<ResponseView, DecodeError>(response)
            ==> outcome(ExchangeView::Received { status, body }) == settled(Ok(response)),
        outcome(ExchangeView::Received { status, body }) is Ok ==> !(outcome(
            ExchangeView::Received { status, body },
        )->Ok_0 is Error),
{
}

/// The message of a remote error is the message of the response, and
/// exactly `Unknown error` for a response without one. A response has no
/// message where the member `message` is absent and where it is `null`.
pub proof fn lemma_remote_error_message(fields: Seq<JsonFieldView>, message: Seq<char>)
    requires
        lookup(fields, "type"@) == Some(JsonValueView::Text("Error"@)),
    ensures
        lookup(fields, "message"@) is None || lookup(fields, "message"@) == Some(
            JsonValueView::Null,
        ) ==> settled(response_of_object(fields)) == Err::<ResponseView, IpcErrorView>(
            IpcErrorView::Remote { message: "Unknown error"@ },
        ),
        lookup(fields, "message"@) == Some(JsonValueView::Text(message)) ==> settled(
            response_of_object(fields),
        ) == Err::<ResponseView, IpcErrorView>(IpcErrorView::Remote { message }),
{
    reveal_strlit("Ok");
    reveal_strlit("Error");
    assert("Ok"@.len() == 2 && "Error"@.len() == 5);
}

/// A status outside 200 to 299 is an HTTP error that carries the status,
/// whatever the body holds: the body is not looked at.
pub proof fn lemma_status_gate(status: u16, body: Seq<u8>)
    requires
        !is_success(status),
    ensures
        outcome(ExchangeView::Received { status, body }) == Err::<ResponseView, IpcErrorView>(
            IpcErrorView::Http { status },
        ),
{
}

/// A tag that names none of the three variants is a decode error, never a
/// result.
pub proof fn lemma_unknown_tag(fields: Seq<JsonFieldView>, tag: Seq<char>)
    requires
        lookup(fields, "type"@) == Some(JsonValueView::Text(tag)),
        tag != "Ok"@,
        tag != "Error"@,
        tag != "HelloWorld"@,
    ensures
        response_of_object(fields) == Err::<ResponseView, DecodeError>(DecodeError::UnknownTag),
        settled(response_of_object(fields)) == Err::<ResponseView, IpcErrorView>(
            IpcErrorView::Decode { reason: DecodeError::UnknownTag },
        ),
{
}

/// A failed transport is a transport error, and a deadline that passed stays
/// marked as one.
pub proof fn lemma_transport_failure(timed_out: bool, detail: Seq<char>)
    ensures
        outcome(ExchangeView::Failed { timed_out, detail }) == Err::<ResponseView, IpcErrorView>(
            IpcErrorView::Transport { timed_out, detail },
        ),
{
}

} // verus!
