//! One connection's frames: what each one asks for, and what it is answered.

use crate::access::Grant;
use crate::json;
use crate::json::Fields;
use crate::json::Json;
use crate::json::Value;
use crate::refusals;
use crate::rpc;
use crate::rpc::payloads;
use crate::rpc::payloads::Payload;
use crate::rpc::Additions;
use crate::rpc::Call;
use crate::rpc::DispatchError;
use crate::rpc::Route;
use vstd::prelude::*;

verus! {

/// Text as the contracts see it.
pub type Text = Seq<char>;

// ---------------------------------------------------------------------------
// Messages
// ---------------------------------------------------------------------------

/// What a client says.
#[derive(Debug, PartialEq, Eq)]
pub enum ClientMessage<S, J> {
    Request { id: S, tag: S, payload: J },
    Ping,
    /// The next chunk of a stream may be sent.
    Ack { request_id: S },
    /// A call is no longer wanted.
    Interrupt { request_id: S },
    /// A frame that is none of these.
    Unrecognized,
}

impl View for ClientMessage<String, Json> {
    type V = ClientMessage<Text, Value>;

    open spec fn view(&self) -> ClientMessage<Text, Value> {
        match self {
            ClientMessage::Request { id, tag, payload } => ClientMessage::Request {
                id: id@,
                tag: tag@,
                payload: payload@,
            },
            ClientMessage::Ping => ClientMessage::Ping,
            ClientMessage::Ack { request_id } => ClientMessage::Ack { request_id: request_id@ },
            ClientMessage::Interrupt { request_id } => ClientMessage::Interrupt { request_id: request_id@ },
            ClientMessage::Unrecognized => ClientMessage::Unrecognized,
        }
    }
}

/// How a call ended.
#[derive(Debug, PartialEq, Eq)]
pub enum Exit<J> {
    Success(J),
    /// The call failed with this error.
    Failed(J),
    /// The client cancelled the call; the number names the work that was stopped.
    Interrupted(u64),
}

impl Exit<Value> {
    /// How it is written.
    pub open spec fn written(self) -> Value {
        match self {
            Exit::Success(value) => Value::Object(seq![("_tag"@, Value::Text("Success"@)), ("value"@, value)]),
            Exit::Failed(error) => failure_of(
                Value::Object(seq![("_tag"@, Value::Text("Fail"@)), ("error"@, error)]),
            ),
            Exit::Interrupted(fiber) => failure_of(
                Value::Object(seq![("_tag"@, Value::Text("Interrupt"@)), ("fiberId"@, Value::Whole(fiber))]),
            ),
        }
    }
}

/// A failure with one cause.
pub open spec fn failure_of(cause: Value) -> Value {
    Value::Object(seq![("_tag"@, Value::Text("Failure"@)), ("cause"@, Value::Array(seq![cause]))])
}

/// What the server says at once.
#[derive(Debug, PartialEq, Eq)]
pub enum ServerMessage<S, J> {
    Exit { request_id: S, exit: Exit<J> },
    Pong,
}

impl ServerMessage<Text, Value> {
    /// How it is written.
    pub open spec fn written(self) -> Value {
        match self {
            ServerMessage::Exit { request_id, exit } => Value::Object(
                seq![
                    ("_tag"@, Value::Text("Exit"@)),
                    ("exit"@, exit.written()),
                    ("requestId"@, Value::Text(request_id)),
                ],
            ),
            ServerMessage::Pong => Value::Object(seq![("_tag"@, Value::Text("Pong"@))]),
        }
    }
}

impl View for Exit<Json> {
    type V = Exit<Value>;

    open spec fn view(&self) -> Exit<Value> {
        match self {
            Exit::Success(value) => Exit::Success(value@),
            Exit::Failed(error) => Exit::Failed(error@),
            Exit::Interrupted(fiber) => Exit::Interrupted(*fiber),
        }
    }
}

impl View for ServerMessage<String, Json> {
    type V = ServerMessage<Text, Value>;

    open spec fn view(&self) -> ServerMessage<Text, Value> {
        match self {
            ServerMessage::Exit { request_id, exit } => ServerMessage::Exit { request_id: request_id@, exit: exit@ },
            ServerMessage::Pong => ServerMessage::Pong,
        }
    }
}

/// An object of two fields, the first of which is its tag.
fn tagged(tag: &str, name: &str, value: Json) -> (out: Json)
    ensures
        out@ == Value::Object(seq![("_tag"@, Value::Text(tag@)), (name@, value@)]),
{
    let ghost wanted = seq![("_tag"@, Value::Text(tag@)), (name@, value@)];
    let fields: Fields = vec![json::entry("_tag", Json::text(tag)), json::entry(name, value)];
    proof {
        assert(json::fields_view(fields@) =~= wanted);
    }
    Json::object(fields)
}

/// A failure with one cause.
fn failure(cause: Json) -> (out: Json)
    ensures
        out@ == failure_of(cause@),
{
    let ghost wanted = seq![cause@];
    let causes: Vec<Json> = vec![cause];
    proof {
        assert(json::items_view(causes@) =~= wanted);
    }
    tagged("Failure", "cause", Json::array(causes))
}

impl ServerMessage<String, Json> {
    /// A call that was answered.
    pub fn success(request_id: String, value: Json) -> (out: Self)
        ensures
            out@ == (ServerMessage::Exit { request_id: request_id@, exit: Exit::Success(value@) }),
    {
        ServerMessage::Exit { request_id, exit: Exit::Success(value) }
    }

    /// A call that failed.
    pub fn failure(request_id: String, error: Json) -> (out: Self)
        ensures
            out@ == (ServerMessage::Exit { request_id: request_id@, exit: Exit::Failed(error@) }),
    {
        ServerMessage::Exit { request_id, exit: Exit::Failed(error) }
    }

    /// How it is written.
    pub fn to_value(&self) -> (out: Json)
        ensures
            out@ == self@.written(),
    {
        match self {
            ServerMessage::Pong => {
                let fields: Fields = vec![json::entry("_tag", Json::text("Pong"))];
                proof {
                    assert(json::fields_view(fields@) =~= seq![("_tag"@, Value::Text("Pong"@))]);
                }
                Json::object(fields)
            },
            ServerMessage::Exit { request_id, exit } => {
                let ended = match exit {
                    Exit::Success(value) => tagged("Success", "value", value.copy()),
                    Exit::Failed(error) => failure(tagged("Fail", "error", error.copy())),
                    Exit::Interrupted(fiber) => failure(tagged("Interrupt", "fiberId", Json::Whole(*fiber))),
                };
                let fields: Fields = vec![
                    json::entry("_tag", Json::text("Exit")),
                    json::entry("exit", ended),
                    json::entry("requestId", Json::text(request_id)),
                ];
                proof {
                    assert(json::fields_view(fields@) =~= self@.written()->Object_0);
                }
                Json::object(fields)
            },
        }
    }
}

// ---------------------------------------------------------------------------
// What the connections of a server share
// ---------------------------------------------------------------------------

/// What the connections of a server count. Each count goes round at its limit.
#[derive(Debug, Clone, Copy, PartialEq, Eq)]
pub struct ServerState {
    pub live_connections: usize,
    pub unrecognized_messages: usize,
    pub unparseable_frames: usize,
    pub next_fiber: u64,
}

impl ServerState {
    /// A server to which nobody has connected.
    pub fn new() -> (out: Self)
        ensures
            (out == ServerState {
                live_connections: 0,
                unrecognized_messages: 0,
                unparseable_frames: 0,
                next_fiber: 0,
            }),
    {
        ServerState { live_connections: 0, unrecognized_messages: 0, unparseable_frames: 0, next_fiber: 0 }
    }

    /// How many sockets are open.
    pub fn live_connections(&self) -> (out: usize)
        ensures
            out == self.live_connections,
    {
        self.live_connections
    }

    /// How many frames were of no known kind.
    pub fn unrecognized_messages(&self) -> (out: usize)
        ensures
            out == self.unrecognized_messages,
    {
        self.unrecognized_messages
    }

    /// How many frames could not be read.
    pub fn unparseable_frames(&self) -> (out: usize)
        ensures
            out == self.unparseable_frames,
    {
        self.unparseable_frames
    }

    /// A socket was opened.
    pub fn opened(&mut self)
        ensures
            *final(self) == (ServerState {
                live_connections: old(self).live_connections.wrapping_add(1),
                ..*old(self)
            }),
    {
        self.live_connections = self.live_connections.wrapping_add(1);
    }

    /// A socket was closed.
    pub fn closed(&mut self)
        ensures
            *final(self) == (ServerState {
                live_connections: old(self).live_connections.wrapping_sub(1),
                ..*old(self)
            }),
    {
        self.live_connections = self.live_connections.wrapping_sub(1);
    }

    /// A name for a piece of work that was stopped.
    pub fn next_fiber_id(&mut self) -> (out: u64)
        ensures
            out == old(self).next_fiber,
            *final(self) == (ServerState { next_fiber: old(self).next_fiber.wrapping_add(1), ..*old(self) }),
    {
        let fiber: u64 = self.next_fiber;
        self.next_fiber = self.next_fiber.wrapping_add(1);
        fiber
    }
}

// ---------------------------------------------------------------------------
// Handling a frame
// ---------------------------------------------------------------------------

/// What a frame asks for.
#[derive(Debug, PartialEq, Eq)]
pub enum Reaction<S, J> {
    Nothing,
    Send(ServerMessage<S, J>),
    /// Read the payload with [`payloads::prepare`], make this call, and hand what
    /// it gives, or the refusal, to [`answered`].
    Call { id: S, route: Route, payload: J },
    /// Release the stream's next chunk, if anything streams under this name.
    Acknowledge(S),
    /// Stop the stream under this name, and hand whether there was one to
    /// [`interrupted`].
    Interrupt(S),
    /// Stream under this name.
    Stream(S),
    /// Do the work off the read loop, and hand what it gives to [`finished`].
    Defer(S),
}

impl View for Reaction<String, Json> {
    type V = Reaction<Text, Value>;

    open spec fn view(&self) -> Reaction<Text, Value> {
        match self {
            Reaction::Nothing => Reaction::Nothing,
            Reaction::Send(message) => Reaction::Send(message@),
            Reaction::Call { id, route, payload } => Reaction::Call { id: id@, route: *route, payload: payload@ },
            Reaction::Acknowledge(id) => Reaction::Acknowledge(id@),
            Reaction::Interrupt(id) => Reaction::Interrupt(id@),
            Reaction::Stream(id) => Reaction::Stream(id@),
            Reaction::Defer(id) => Reaction::Defer(id@),
        }
    }
}

/// The error that a refused call fails with.
pub open spec fn error_of(refused: DispatchError<Text, Value>) -> Value {
    match refused {
        DispatchError::UnknownMethod(tag) => refusals::refused(tag),
        DispatchError::Declared(error) => error,
    }
}

/// A call that fails with this error.
pub open spec fn fails(id: Text, error: Value) -> Reaction<Text, Value> {
    Reaction::Send(ServerMessage::Exit { request_id: id, exit: Exit::Failed(error) })
}

/// What a frame asks for. `None` is a frame that could not be read.
pub open spec fn reaction(
    additions: Additions<Text>,
    scopes: Seq<Text>,
    frame: Option<ClientMessage<Text, Value>>,
) -> Reaction<Text, Value> {
    match frame {
        None => Reaction::Nothing,
        Some(ClientMessage::Request { id, tag, payload }) => match rpc::routed(additions, scopes, tag) {
            Ok(route) => Reaction::Call { id, route, payload },
            Err(refused) => fails(id, error_of(refused)),
        },
        Some(ClientMessage::Ping) => Reaction::Send(ServerMessage::Pong),
        Some(ClientMessage::Ack { request_id }) => Reaction::Acknowledge(request_id),
        Some(ClientMessage::Interrupt { request_id }) => Reaction::Interrupt(request_id),
        Some(ClientMessage::Unrecognized) => Reaction::Nothing,
    }
}

/// What a frame counts for: one that cannot be read and one of no known kind are
/// counted, each in its own count.
pub open spec fn counted(state: ServerState, frame: Option<ClientMessage<Text, Value>>) -> ServerState {
    match frame {
        None => ServerState { unparseable_frames: state.unparseable_frames.wrapping_add(1), ..state },
        Some(ClientMessage::Unrecognized) => ServerState {
            unrecognized_messages: state.unrecognized_messages.wrapping_add(1),
            ..state
        },
        Some(_) => state,
    }
}

/// The view of a frame.
pub open spec fn frame_view(frame: Option<ClientMessage<String, Json>>) -> Option<ClientMessage<Text, Value>> {
    match frame {
        Some(message) => Some(message@),
        None => None,
    }
}

/// Handles one frame.
pub fn handle(
    state: &mut ServerState,
    additions: &Additions<String>,
    grant: &Grant<String, Vec<String>>,
    frame: Option<ClientMessage<String, Json>>,
) -> (out: Reaction<String, Json>)
    ensures
        out@ == reaction(additions@, grant@.scopes, frame_view(frame)),
        *final(state) == counted(*old(state), frame_view(frame)),
{
    match frame {
        None => {
            state.unparseable_frames = state.unparseable_frames.wrapping_add(1);
            Reaction::Nothing
        },
        Some(ClientMessage::Request { id, tag, payload }) => match rpc::dispatch(additions, grant, &tag) {
            Ok(route) => Reaction::Call { id, route, payload },
            Err(refused) => Reaction::Send(ServerMessage::failure(id, refused.to_error())),
        },
        Some(ClientMessage::Ping) => Reaction::Send(ServerMessage::Pong),
        Some(ClientMessage::Ack { request_id }) => Reaction::Acknowledge(request_id),
        Some(ClientMessage::Interrupt { request_id }) => Reaction::Interrupt(request_id),
        Some(ClientMessage::Unrecognized) => {
            state.unrecognized_messages = state.unrecognized_messages.wrapping_add(1);
            Reaction::Nothing
        },
    }
}

/// What a call gave.
#[derive(Debug, PartialEq, Eq)]
pub enum Answer<J> {
    Value(J),
    /// A stream, whose chunks come from its own task.
    Stream,
    /// Work that answers for itself.
    Deferred,
}

/// What follows from what a call gave: a value is sent at once, a refusal fails
/// this call and no other, and nothing is written yet for the rest.
pub open spec fn after_call(id: Text, answer: Result<Answer<Value>, DispatchError<Text, Value>>) -> Reaction<
    Text,
    Value,
> {
    match answer {
        Ok(Answer::Value(value)) => Reaction::Send(
            ServerMessage::Exit { request_id: id, exit: Exit::Success(value) },
        ),
        Ok(Answer::Stream) => Reaction::Stream(id),
        Ok(Answer::Deferred) => Reaction::Defer(id),
        Err(refused) => fails(id, error_of(refused)),
    }
}

/// The view of what a call gave.
pub open spec fn answer_view(answer: Result<Answer<Json>, DispatchError<String, Json>>) -> Result<
    Answer<Value>,
    DispatchError<Text, Value>,
> {
    match answer {
        Ok(Answer::Value(value)) => Ok(Answer::Value(value@)),
        Ok(Answer::Stream) => Ok(Answer::Stream),
        Ok(Answer::Deferred) => Ok(Answer::Deferred),
        Err(refused) => Err(refused@),
    }
}

/// What follows from what a call gave.
pub fn answered(id: String, answer: Result<Answer<Json>, DispatchError<String, Json>>) -> (out: Reaction<String, Json>)
    ensures
        out@ == after_call(id@, answer_view(answer)),
{
    match answer {
        Ok(Answer::Value(value)) => Reaction::Send(ServerMessage::success(id, value)),
        Ok(Answer::Stream) => Reaction::Stream(id),
        Ok(Answer::Deferred) => Reaction::Defer(id),
        Err(refused) => Reaction::Send(ServerMessage::failure(id, refused.to_error())),
    }
}

/// What follows from a cancellation. One of something that streams ends it as
/// interrupted; any other is ordinary traffic, and the name under which a call was
/// answered is not answered twice.
pub fn interrupted(state: &mut ServerState, id: String, streaming: bool) -> (out: Reaction<String, Json>)
    ensures
        streaming ==> {
            &&& out@ == Reaction::<Text, Value>::Send(
                ServerMessage::Exit { request_id: id@, exit: Exit::Interrupted(old(state).next_fiber) },
            )
            &&& *final(state) == (ServerState { next_fiber: old(state).next_fiber.wrapping_add(1), ..*old(state) })
        },
        !streaming ==> out@ == Reaction::<Text, Value>::Nothing && *final(state) == *old(state),
{
    if streaming {
        let fiber: u64 = state.next_fiber_id();
        Reaction::Send(ServerMessage::Exit { request_id: id, exit: Exit::Interrupted(fiber) })
    } else {
        Reaction::Nothing
    }
}

/// What deferred work answers, under the name that it was asked for.
pub fn finished(id: String, outcome: Result<Json, Json>) -> (out: ServerMessage<String, Json>)
    ensures
        out@ == (ServerMessage::Exit {
            request_id: id@,
            exit: match outcome {
                Ok(value) => Exit::Success(value@),
                Err(error) => Exit::Failed(error@),
            },
        }),
{
    match outcome {
        Ok(value) => ServerMessage::success(id, value),
        Err(error) => ServerMessage::failure(id, error),
    }
}

// ---------------------------------------------------------------------------
// The read loop
// ---------------------------------------------------------------------------

/// What the read loop was woken by.
#[derive(Debug, Clone, Copy, PartialEq, Eq, Structural)]
pub enum Incoming {
    /// The server stops.
    Shutdown,
    Text,
    Binary,
    /// A control frame of the socket's own, which the library below answers.
    Control,
    Close,
    /// The socket failed or ended.
    Gone,
}

/// What the read loop does.
#[derive(Debug, Clone, Copy, PartialEq, Eq, Structural)]
pub enum Flow {
    /// Hand the text to [`handle`].
    Handle,
    /// Wait for the next frame.
    Continue,
    /// Stop the streams, close the queue and wait for the writer.
    Break,
}

/// What the read loop does.
pub fn flow(incoming: Incoming) -> (out: Flow)
    ensures
        out == match incoming {
            Incoming::Text => Flow::Handle,
            Incoming::Binary | Incoming::Control => Flow::Continue,
            Incoming::Shutdown | Incoming::Close | Incoming::Gone => Flow::Break,
        },
{
    match incoming {
        Incoming::Text => Flow::Handle,
        Incoming::Binary | Incoming::Control => Flow::Continue,
        Incoming::Shutdown | Incoming::Close | Incoming::Gone => Flow::Break,
    }
}

/// What the read loop does once a frame was queued, or was not because the writer
/// is gone.
pub fn after_send(queued: bool) -> (out: Flow)
    ensures
        out == if queued {
            Flow::Continue
        } else {
            Flow::Break
        },
{
    if queued {
        Flow::Continue
    } else {
        Flow::Break
    }
}

// ---------------------------------------------------------------------------
// Laws
// ---------------------------------------------------------------------------

/// A frame that cannot be read, or of no known kind, is answered with nothing; one
/// that can be read does not count.
pub proof fn a_stray_frame_is_counted_and_not_answered(
    state: ServerState,
    additions: Additions<Text>,
    scopes: Seq<Text>,
    frame: Option<ClientMessage<Text, Value>>,
)
    ensures
        reaction(additions, scopes, frame) is Nothing <==> frame is None || frame->0 is Unrecognized,
        reaction(additions, scopes, frame) is Nothing <==> counted(state, frame) != state,
{
}

/// What is sent about a call carries that call's own name: neither a refusal nor a
/// value ends another call.
pub proof fn an_answer_names_its_own_request(
    additions: Additions<Text>,
    scopes: Seq<Text>,
    id: Text,
    tag: Text,
    payload: Value,
    answer: Result<Answer<Value>, DispatchError<Text, Value>>,
)
    ensures
        match reaction(additions, scopes, Some(ClientMessage::Request { id, tag, payload })) {
            Reaction::Send(message) => message is Exit && message->request_id == id && message->exit is Failed,
            Reaction::Call { id: called, payload: handed, .. } => called == id && handed == payload,
            _ => false,
        },
        match after_call(id, answer) {
            Reaction::Send(message) => message is Exit && message->request_id == id,
            Reaction::Stream(named) => named == id,
            Reaction::Defer(named) => named == id,
            _ => false,
        },
{
}

/// A payload that its reader refuses fails its own call at once, under the error
/// that the reader gave: nothing is set off for it.
pub proof fn a_refused_payload_sets_nothing_off(
    id: Text,
    call: Call,
    payload: Payload<Text, Value>,
    settings_path: Text,
)
    ensures
        payloads::read_for(call, payload, settings_path) matches Err(refused) ==> {
            &&& refused is Declared
            &&& after_call(id, Err(refused)) == fails(id, refused->Declared_0)
        },
{
}

/// The name of the piece of work that is stopped as the `n`th, where the first is
/// named `first`.
pub open spec fn nth_fiber(first: u64, n: nat) -> u64
    decreases n,
{
    if n == 0 {
        first
    } else {
        nth_fiber(first, (n - 1) as nat).wrapping_add(1)
    }
}

proof fn nth_fiber_counts(first: u64, n: nat)
    requires
        n <= u64::MAX,
    ensures
        nth_fiber(first, n) == if first + n <= u64::MAX {
            first + n
        } else {
            first + n - u64::MAX - 1
        },
    decreases n,
{
    if n > 0 {
        nth_fiber_counts(first, (n - 1) as nat);
    }
}

/// No two of the first 2^64 pieces of work that are stopped get the same name.
pub proof fn fibers_are_distinct(first: u64, a: nat, b: nat)
    requires
        a <= u64::MAX,
        b <= u64::MAX,
        a != b,
    ensures
        nth_fiber(first, a) != nth_fiber(first, b),
{
    nth_fiber_counts(first, a);
    nth_fiber_counts(first, b);
}

} // verus!
