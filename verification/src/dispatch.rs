use vstd::prelude::*;
use vstd::string::StringSliceAdditionalSpecFns;
use vstd::utf8::valid_utf8;
use crate::canonical::build;
use crate::canonical::copy_range;
use crate::command::command_json;
use crate::command::CommandModel;
use crate::command::DiscordCommand;
use crate::interaction::Interaction;
use crate::interaction::InteractionModel;
use crate::json::append_str;
use crate::parse::parse;
use crate::parse::parse_interaction;
use crate::signature::verify;
use crate::signature::verify_spec;
use crate::signature::Verdict;

verus! {

// Every request makes one pass: the headers are checked, the canonical
// message is rebuilt and verified, the body is parsed, and the record is
// routed by its type tag to exactly one behaviour. The outcome carries the
// one outbound action that the handler asks for; performing it is the
// caller's work, after the response is already decided.

/// The mathematical content of an outbound action.
pub enum ActionModel {
    Nothing,
    RegisterCommand { application_id: Seq<u8>, command: CommandModel },
    Reply { id: Seq<u8>, token: Seq<u8>, message: Seq<u8> },
}

/// The one outbound call that a routed request asks for: none, a command
/// registration, or a follow-up reply addressed by id and token.
pub enum Action {
    Nothing,
    RegisterCommand { application_id: Vec<u8>, command: DiscordCommand },
    Reply { id: Vec<u8>, token: Vec<u8>, message: Vec<u8> },
}

impl View for Action {
    type V = ActionModel;

    open spec fn view(&self) -> ActionModel {
        match self {
            Action::Nothing => ActionModel::Nothing,
            Action::RegisterCommand { application_id, command } => (ActionModel::RegisterCommand {
                application_id: application_id@,
                command: command@,
            }),
            Action::Reply { id, token, message } => (ActionModel::Reply {
                id: id@,
                token: token@,
                message: message@,
            }),
        }
    }
}

/// The mathematical content of a request's outcome.
pub enum OutcomeModel {
    BadSignature,
    MalformedBody,
    UnknownType { tag: u8 },
    Acknowledge { action: ActionModel },
}

/// How one request ends: rejected at the signature gate, rejected at the
/// body, rejected for an unrecognized type tag, or acknowledged with the
/// outbound action the handler asks for.
pub enum Outcome {
    BadSignature,
    MalformedBody,
    UnknownType { tag: u8 },
    Acknowledge { action: Action },
}

impl View for Outcome {
    type V = OutcomeModel;

    open spec fn view(&self) -> OutcomeModel {
        match self {
            Outcome::BadSignature => OutcomeModel::BadSignature,
            Outcome::MalformedBody => OutcomeModel::MalformedBody,
            Outcome::UnknownType { tag } => (OutcomeModel::UnknownType { tag: *tag }),
            Outcome::Acknowledge { action } => (OutcomeModel::Acknowledge { action: action@ }),
        }
    }
}

/// The command that a command invocation registers.
pub open spec fn default_command_model() -> CommandModel {
    CommandModel {
        name: ("hello").spec_bytes(),
        description: ("hello world").spec_bytes(),
        options: None,
    }
}

/// The text that a component or message interaction replies with.
pub open spec fn default_reply_message() -> Seq<u8> {
    ("Hello from Spin!").spec_bytes()
}

/// Where a parsed record routes: tag 1 (liveness check) is acknowledged with
/// no outbound call; tag 2 (command invocation) asks for one command
/// registration under the record's application id; tag 3 (component or
/// message interaction) asks for one follow-up reply addressed by the
/// record's id and token; every other tag is a client error and asks for
/// nothing.
pub open spec fn dispatch_spec(m: InteractionModel) -> OutcomeModel {
    if m.command_type == 1 {
        OutcomeModel::Acknowledge { action: ActionModel::Nothing }
    } else if m.command_type == 2 {
        OutcomeModel::Acknowledge {
            action: ActionModel::RegisterCommand {
                application_id: m.application_id,
                command: default_command_model(),
            },
        }
    } else if m.command_type == 3 {
        OutcomeModel::Acknowledge {
            action: ActionModel::Reply {
                id: m.id,
                token: m.token,
                message: default_reply_message(),
            },
        }
    } else {
        OutcomeModel::UnknownType { tag: m.command_type }
    }
}

/// A copy of a byte vector.
fn clone_bytes(v: &Vec<u8>) -> (r: Vec<u8>)
    ensures
        r@ == v@,
{
    let r = copy_range(v.as_slice(), 0, v.len());
    assert(v@.subrange(0, v@.len() as int) =~= v@);
    r
}

/// Routes one parsed, authenticated record to exactly one behaviour.
pub fn dispatch(it: &Interaction) -> (r: Outcome)
    ensures
        r@ == dispatch_spec(it@),
{
    if it.command_type == 1 {
        Outcome::Acknowledge { action: Action::Nothing }
    } else if it.command_type == 2 {
        Outcome::Acknowledge {
            action: Action::RegisterCommand {
                application_id: clone_bytes(&it.application_id),
                command: DiscordCommand::new("hello", "hello world"),
            },
        }
    } else if it.command_type == 3 {
        let mut message: Vec<u8> = Vec::new();
        append_str(&mut message, "Hello from Spin!");
        Outcome::Acknowledge {
            action: Action::Reply {
                id: clone_bytes(&it.id),
                token: clone_bytes(&it.token),
                message,
            },
        }
    } else {
        Outcome::UnknownType { tag: it.command_type }
    }
}

/// Relies on core::str::from_utf8: it accepts exactly the valid UTF-8 byte
/// strings.
#[verifier::external_body]
fn utf8_check(b: &[u8]) -> (r: bool)
    ensures
        r == valid_utf8(b@),
{
    core::str::from_utf8(b).is_ok()
}

/// The view of an optional header value.
pub open spec fn opt_slice_view(o: Option<&[u8]>) -> Option<Seq<u8>> {
    match o {
        Some(s) => Some(s@),
        None => None,
    }
}

/// How one request ends, from the configured public key, the two headers as
/// they arrived (or did not), and the raw body. A missing or empty header
/// fails the signature gate before any cryptographic work; a body that is
/// not text fails before verification; a forged signature fails before
/// parsing; an unparseable body fails after authentication, as its own
/// class; a parsed record routes by its type tag.
pub open spec fn handle_spec(
    public_key_hex: Seq<u8>,
    timestamp: Option<Seq<u8>>,
    signature: Option<Seq<u8>>,
    body: Seq<u8>,
) -> OutcomeModel {
    match (timestamp, signature) {
        (Some(t), Some(sg)) => {
            if t.len() == 0 || sg.len() == 0 {
                OutcomeModel::BadSignature
            } else if !valid_utf8(body) {
                OutcomeModel::MalformedBody
            } else if verify_spec(public_key_hex, t + body, sg) == Verdict::Authentic {
                match parse_interaction(body) {
                    Some(m) => dispatch_spec(m),
                    None => OutcomeModel::MalformedBody,
                }
            } else {
                OutcomeModel::BadSignature
            }
        },
        _ => OutcomeModel::BadSignature,
    }
}

/// Handles one request: authenticates, parses, and routes it, yielding the
/// outcome that decides both the immediate response and the one outbound
/// action. Never panics, whatever the request holds.
pub fn handle(
    public_key_hex: &[u8],
    timestamp: Option<&[u8]>,
    signature: Option<&[u8]>,
    body: &[u8],
) -> (r: Outcome)
    ensures
        r@ == handle_spec(public_key_hex@, opt_slice_view(timestamp), opt_slice_view(signature), body@),
{
    let (t, sg) = match (timestamp, signature) {
        (Some(t), Some(sg)) => (t, sg),
        _ => {
            return Outcome::BadSignature;
        },
    };
    if t.len() == 0 || sg.len() == 0 {
        return Outcome::BadSignature;
    }
    if !utf8_check(body) {
        return Outcome::MalformedBody;
    }
    let message = build(t, body);
    let verdict = verify(public_key_hex, message.as_slice(), sg);
    match verdict {
        Verdict::Authentic => {
            match parse(body) {
                Ok(it) => dispatch(&it),
                Err(_) => Outcome::MalformedBody,
            }
        },
        Verdict::Forged => Outcome::BadSignature,
    }
}

/// The immediate HTTP response: a status code and a body.
pub struct HttpResponse {
    pub status: u16,
    pub body: Vec<u8>,
}

/// The status of the response to an outcome: 200 for an acknowledged
/// request, 400 for every rejection.
pub open spec fn response_status(o: OutcomeModel) -> u16 {
    match o {
        OutcomeModel::Acknowledge { .. } => 200,
        _ => 400,
    }
}

/// The body of the response to an outcome. Every acknowledged request
/// answers with the protocol's acknowledgment payload; the rejections are
/// opaque indicators, distinguishable from one another but naming no cause
/// beyond their class.
pub open spec fn response_body(o: OutcomeModel) -> Seq<u8> {
    match o {
        OutcomeModel::Acknowledge { .. } => ("{\"type\": 1}").spec_bytes(),
        OutcomeModel::BadSignature => ("Bad Signature").spec_bytes(),
        OutcomeModel::MalformedBody => ("Malformed Body").spec_bytes(),
        OutcomeModel::UnknownType { .. } => ("Unknown Interaction Type").spec_bytes(),
    }
}

/// Shapes the wire response to an outcome.
pub fn response_of(o: &Outcome) -> (r: HttpResponse)
    ensures
        r.status == response_status(o@),
        r.body@ == response_body(o@),
{
    match o {
        Outcome::Acknowledge { .. } => {
            let mut body: Vec<u8> = Vec::new();
            append_str(&mut body, "{\"type\": 1}");
            HttpResponse { status: 200, body }
        },
        Outcome::BadSignature => {
            let mut body: Vec<u8> = Vec::new();
            append_str(&mut body, "Bad Signature");
            HttpResponse { status: 400, body }
        },
        Outcome::MalformedBody => {
            let mut body: Vec<u8> = Vec::new();
            append_str(&mut body, "Malformed Body");
            HttpResponse { status: 400, body }
        },
        Outcome::UnknownType { .. } => {
            let mut body: Vec<u8> = Vec::new();
            append_str(&mut body, "Unknown Interaction Type");
            HttpResponse { status: 400, body }
        },
    }
}

/// A request that lacks the signature or the timestamp header, or carries an
/// empty one, is rejected as a signature failure with a 400 response,
/// whatever the body holds: nothing downstream of the header check — neither
/// verification nor the parser — contributes to the outcome.
pub proof fn lemma_missing_header_rejected(
    public_key_hex: Seq<u8>,
    timestamp: Option<Seq<u8>>,
    signature: Option<Seq<u8>>,
    body: Seq<u8>,
)
    requires
        timestamp is None || signature is None || timestamp.unwrap().len() == 0
            || signature.unwrap().len() == 0,
    ensures
        handle_spec(public_key_hex, timestamp, signature, body) == OutcomeModel::BadSignature,
        response_status(handle_spec(public_key_hex, timestamp, signature, body)) == 400,
{
}

/// An authentic request whose body does not parse is a client error of its
/// own class: the outcome differs from every signature rejection, though
/// both answer with a 4xx status.
pub proof fn lemma_unparseable_body_distinct(
    public_key_hex: Seq<u8>,
    timestamp: Seq<u8>,
    signature: Seq<u8>,
    body: Seq<u8>,
)
    requires
        timestamp.len() > 0,
        signature.len() > 0,
        valid_utf8(body),
        verify_spec(public_key_hex, timestamp + body, signature) == Verdict::Authentic,
        parse_interaction(body) is None,
    ensures
        handle_spec(public_key_hex, Some(timestamp), Some(signature), body)
            == OutcomeModel::MalformedBody,
        handle_spec(public_key_hex, Some(timestamp), Some(signature), body)
            != OutcomeModel::BadSignature,
        response_status(handle_spec(public_key_hex, Some(timestamp), Some(signature), body))
            == 400,
{
}

/// An authentic, parseable request with the liveness type tag is
/// acknowledged at once: 200 with the acknowledgment payload, and no
/// collaborator is called.
pub proof fn lemma_ping_acknowledged(
    public_key_hex: Seq<u8>,
    timestamp: Seq<u8>,
    signature: Seq<u8>,
    body: Seq<u8>,
    m: InteractionModel,
)
    requires
        timestamp.len() > 0,
        signature.len() > 0,
        valid_utf8(body),
        verify_spec(public_key_hex, timestamp + body, signature) == Verdict::Authentic,
        parse_interaction(body) == Some(m),
        m.command_type == 1,
    ensures
        handle_spec(public_key_hex, Some(timestamp), Some(signature), body) == (
        OutcomeModel::Acknowledge { action: ActionModel::Nothing }),
        response_status(handle_spec(public_key_hex, Some(timestamp), Some(signature), body))
            == 200,
        response_body(handle_spec(public_key_hex, Some(timestamp), Some(signature), body)) == (
        "{\"type\": 1}").spec_bytes(),
{
}

/// An authentic, parseable request with the command-invocation type tag asks
/// for exactly one command registration, carrying the record's application
/// id and the configured default command, and still answers 200 with the
/// acknowledgment payload.
pub proof fn lemma_command_registers(
    public_key_hex: Seq<u8>,
    timestamp: Seq<u8>,
    signature: Seq<u8>,
    body: Seq<u8>,
    m: InteractionModel,
)
    requires
        timestamp.len() > 0,
        signature.len() > 0,
        valid_utf8(body),
        verify_spec(public_key_hex, timestamp + body, signature) == Verdict::Authentic,
        parse_interaction(body) == Some(m),
        m.command_type == 2,
    ensures
        handle_spec(public_key_hex, Some(timestamp), Some(signature), body) == (
        OutcomeModel::Acknowledge {
            action: ActionModel::RegisterCommand {
                application_id: m.application_id,
                command: default_command_model(),
            },
        }),
        response_status(handle_spec(public_key_hex, Some(timestamp), Some(signature), body))
            == 200,
        response_body(handle_spec(public_key_hex, Some(timestamp), Some(signature), body)) == (
        "{\"type\": 1}").spec_bytes(),
{
}

/// An authentic, parseable request with the component or message type tag
/// asks for exactly one follow-up reply, addressed by the record's id and
/// token, and answers 200 with the acknowledgment payload.
pub proof fn lemma_component_replies(
    public_key_hex: Seq<u8>,
    timestamp: Seq<u8>,
    signature: Seq<u8>,
    body: Seq<u8>,
    m: InteractionModel,
)
    requires
        timestamp.len() > 0,
        signature.len() > 0,
        valid_utf8(body),
        verify_spec(public_key_hex, timestamp + body, signature) == Verdict::Authentic,
        parse_interaction(body) == Some(m),
        m.command_type == 3,
    ensures
        handle_spec(public_key_hex, Some(timestamp), Some(signature), body) == (
        OutcomeModel::Acknowledge {
            action: ActionModel::Reply {
                id: m.id,
                token: m.token,
                message: default_reply_message(),
            },
        }),
        response_status(handle_spec(public_key_hex, Some(timestamp), Some(signature), body))
            == 200,
{
}

/// An authentic, parseable request whose type tag is outside the supported
/// set is a client error: no collaborator is asked for anything, and the
/// outcome is neither a silent acknowledgment nor a signature failure.
pub proof fn lemma_unknown_type_rejected(
    public_key_hex: Seq<u8>,
    timestamp: Seq<u8>,
    signature: Seq<u8>,
    body: Seq<u8>,
    m: InteractionModel,
)
    requires
        timestamp.len() > 0,
        signature.len() > 0,
        valid_utf8(body),
        verify_spec(public_key_hex, timestamp + body, signature) == Verdict::Authentic,
        parse_interaction(body) == Some(m),
        m.command_type != 1 && m.command_type != 2 && m.command_type != 3,
    ensures
        handle_spec(public_key_hex, Some(timestamp), Some(signature), body) == (
        OutcomeModel::UnknownType { tag: m.command_type }),
        response_status(handle_spec(public_key_hex, Some(timestamp), Some(signature), body))
            == 400,
{
}

} // verus!
