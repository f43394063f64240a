//! Connections, and the requests that the server has outstanding on them.
//!
//! The server asks its clients things too. A message answers such a request where it has an id, has
//! no method, and the id is one that the session waits for.

use crate::ids;
use crate::json::{self, Json, JsonNumber, JsonView, NumberView};
use crate::table::Table;
use crate::text;
use vstd::prelude::*;

verus! {

/// How long, in seconds, the server waits for the answer to a request of its own.
pub const DEFAULT_ELICIT_TIMEOUT_SECS: u64 = 300;

/// Why a request of the server failed.
#[derive(Debug)]
pub enum SessionError {
    /// The client never said that it can be asked.
    ElicitationUnsupported,
    /// The request could not be sent.
    Send(String),
    /// The client did not answer within this time.
    Timeout(std::time::Duration),
    /// The connection went away first.
    Closed,
    /// The client answered with an error.
    ClientError(String),
    /// The client's answer makes no sense.
    Malformed(String),
}

/// The length of a `std::time::Duration` in nanoseconds, as its `as_nanos` gives it.
pub uninterp spec fn nanoseconds(duration: std::time::Duration) -> nat;

/// `std::time::Duration::from_secs`: the duration is this many seconds long.
pub assume_specification[ std::time::Duration::from_secs ](secs: u64) -> (duration:
    std::time::Duration)
    ensures
        nanoseconds(duration) == secs * 1_000_000_000,
;

/// How the `Debug` of `std::time::Duration` shows a duration.
pub uninterp spec fn duration_text(duration: std::time::Duration) -> Seq<char>;

/// The `Debug` of `std::time::Duration`. The text depends on the duration alone.
#[verifier::external_body]
fn show_duration(duration: std::time::Duration) -> (s: String)
    ensures
        s@ == duration_text(duration),
{
    format!("{:?}", duration)
}

impl SessionError {
    /// The message that the error is reported with.
    pub open spec fn message(self) -> Seq<char> {
        match self {
            SessionError::ElicitationUnsupported =>
                "client did not advertise the elicitation capability"@,
            SessionError::Send(reason) => "failed to send request to client: "@ + reason@,
            SessionError::Timeout(limit) => "client did not answer within "@ + duration_text(limit),
            SessionError::Closed => "session closed while awaiting a response"@,
            SessionError::ClientError(detail) => "client returned an error: "@ + detail@,
            SessionError::Malformed(detail) => "malformed elicitation result: "@ + detail@,
        }
    }

    /// The message that the error is reported with.
    pub fn describe(&self) -> (s: String)
        ensures
            s@ == self.message(),
    {
        match self {
            SessionError::ElicitationUnsupported =>
                "client did not advertise the elicitation capability".to_string(),
            SessionError::Send(reason) => "failed to send request to client: ".to_string().concat(
                reason.as_str(),
            ),
            SessionError::Timeout(limit) => "client did not answer within ".to_string().concat(
                show_duration(*limit).as_str(),
            ),
            SessionError::Closed => "session closed while awaiting a response".to_string(),
            SessionError::ClientError(detail) => "client returned an error: ".to_string().concat(
                detail.as_str(),
            ),
            SessionError::Malformed(detail) => "malformed elicitation result: ".to_string().concat(
                detail.as_str(),
            ),
        }
    }
}

/// How the `Display` of `serde_json::Number` shows a number that is no 64-bit integer.
pub uninterp spec fn float_text(number: serde_json::Number) -> Seq<char>;

/// The `Display` of `serde_json::Number`. The text depends on the number alone.
#[verifier::external_body]
fn show_number(number: &serde_json::Number) -> (s: String)
    ensures
        s@ == float_text(*number),
{
    number.to_string()
}

/// The text of a number.
pub open spec fn number_text(number: NumberView) -> Seq<char> {
    match number {
        NumberView::Int(n) => text::integer_text(n),
        NumberView::Float(n) => float_text(n),
    }
}

fn show_json_number(number: &JsonNumber) -> (s: String)
    ensures
        s@ == number_text(number@),
{
    match number {
        JsonNumber::Unsigned(n) => text::decimal(*n),
        JsonNumber::Signed(n) => text::integer(*n),
        JsonNumber::Float(n) => match n.as_u64() {
            Some(u) => text::decimal(u),
            None => match n.as_i64() {
                Some(i) => text::integer(i),
                None => show_number(n),
            },
        },
    }
}

/// The key under which an id is waited for: a string itself, a number in its textual form, and
/// nothing for any other id.
pub open spec fn response_id_key(id: JsonView) -> Option<Seq<char>> {
    match id {
        JsonView::String(s) => Some(s),
        JsonView::Number(n) => Some(number_text(n)),
        _ => None,
    }
}

fn id_key(id: &Json) -> (key: Option<String>)
    ensures
        text::opt_view(key) == response_id_key(id@),
{
    match id {
        Json::String(s) => Some(s.clone()),
        Json::Number(n) => Some(show_json_number(n)),
        _ => None,
    }
}

/// The key of the request that a message answers: it has an id and no method.
pub open spec fn answered_key(message: JsonView) -> Option<Seq<char>> {
    if message.get("method"@) is Some {
        None
    } else {
        match message.get("id"@) {
            Some(id) => response_id_key(id),
            None => None,
        }
    }
}

/// A connection, and the ids of the requests that the server waits on.
pub struct McpSession {
    id: String,
    pending: Table<()>,
    client_capabilities: Option<Json>,
    elicit_timeout: std::time::Duration,
}

/// The mathematical counterpart of [`McpSession`].
#[verifier::ext_equal]
pub struct SessionView {
    /// The id that the transport gave the session.
    pub id: Seq<char>,
    /// The ids of the requests that wait for an answer.
    pub pending: Set<Seq<char>>,
    /// What the client said it can do.
    pub client_capabilities: Option<JsonView>,
    /// How long a request waits.
    pub elicit_timeout: std::time::Duration,
}

impl View for McpSession {
    type V = SessionView;

    closed spec fn view(&self) -> SessionView {
        SessionView {
            id: self.id@,
            pending: self.pending@.dom(),
            client_capabilities: json::opt_view(self.client_capabilities),
            elicit_timeout: self.elicit_timeout,
        }
    }
}

impl SessionView {
    /// Whether the client said that it can be asked: its capabilities name `elicitation`, with any
    /// value but null.
    pub open spec fn elicits(self) -> bool {
        match json::get_in(self.client_capabilities, "elicitation"@) {
            Some(value) => !(value is Null),
            None => false,
        }
    }
}

/// What the ids of the server's requests begin with.
pub const REQUEST_PREFIX: &'static str = "apcore-mcp-";

/// An id as the server gives its requests: the prefix, and a UUID.
pub open spec fn minted(id: Seq<char>) -> bool {
    text::has_prefix(id, REQUEST_PREFIX@) && ids::uuid_text(id.skip(REQUEST_PREFIX@.len() as int))
}

/// A request of the server.
pub open spec fn request_view(
    id: Seq<char>,
    method: Seq<char>,
    params: JsonView,
) -> JsonView {
    JsonView::object().with("jsonrpc"@, JsonView::text("2.0"@)).with("id"@, JsonView::text(id)).with(
        "method"@,
        JsonView::text(method),
    ).with("params"@, params)
}

/// What came of waiting for an answer.
pub enum Waited {
    /// The client's answer.
    Answered(Json),
    /// The session was closed.
    Closed,
    /// The time was up.
    TimedOut,
}

/// What a client did with a form.
#[derive(Debug, Clone, Copy, PartialEq, Eq, Structural)]
pub enum ElicitAction {
    /// The client filled it in.
    Accept,
    /// The client refused to fill it in.
    Decline,
    /// The client put it away.
    Cancel,
}

/// A client's answer to a form.
#[derive(Debug)]
pub struct ElicitResult {
    pub action: ElicitAction,
    /// What the client filled in.
    pub content: Option<Json>,
}

/// What an answer to an elicitation says.
pub enum Elicited {
    /// The client's answer to the form, as a document.
    Answer(JsonView),
    /// The client reports an error, with this message.
    Refused(Seq<char>),
    /// There is neither an answer nor an error.
    Nothing,
}

/// What an answer to an elicitation says.
pub open spec fn elicited(response: JsonView) -> Elicited {
    match response.get("error"@) {
        Some(error) => Elicited::Refused(
            match json::text_in(error.get("message"@)) {
                Some(message) => message,
                None => "unspecified"@,
            },
        ),
        None => match response.get("result"@) {
            Some(result) => Elicited::Answer(result),
            None => Elicited::Nothing,
        },
    }
}

impl McpSession {
    /// A session that waits for nothing.
    pub fn new(id: &str) -> (session: McpSession)
        ensures
            session@ == (SessionView {
                id: id@,
                pending: Set::empty(),
                client_capabilities: None,
                elicit_timeout: session@.elicit_timeout,
            }),
            nanoseconds(session@.elicit_timeout) == DEFAULT_ELICIT_TIMEOUT_SECS * 1_000_000_000,
    {
        let session = McpSession {
            id: id.to_string(),
            pending: Table::new(),
            client_capabilities: None,
            elicit_timeout: std::time::Duration::from_secs(DEFAULT_ELICIT_TIMEOUT_SECS),
        };
        assert(session@.pending =~= Set::<Seq<char>>::empty());
        session
    }

    /// The session with another limit on waiting.
    pub fn with_elicit_timeout(self, timeout: std::time::Duration) -> (session: McpSession)
        ensures
            session@ == (SessionView { elicit_timeout: timeout, ..self@ }),
    {
        let mut session = self;
        session.elicit_timeout = timeout;
        session
    }

    /// The id that the transport gave the session.
    pub fn id(&self) -> (id: &str)
        ensures
            id@ == self@.id,
    {
        self.id.as_str()
    }

    /// Takes note of what the client said it can do.
    pub fn set_client_capabilities(&mut self, capabilities: Json)
        ensures
            final(self)@ == (SessionView {
                client_capabilities: Some(capabilities@),
                ..old(self)@
            }),
    {
        self.client_capabilities = Some(capabilities);
    }

    /// Whether the client said that it can be asked.
    pub fn supports_elicitation(&self) -> (r: bool)
        ensures
            r == self@.elicits(),
    {
        match &self.client_capabilities {
            Some(capabilities) => match capabilities.get("elicitation") {
                Some(value) => !value.is_null(),
                None => false,
            },
            None => false,
        }
    }

    /// Takes `message` as the answer to an outstanding request, where it is one, and gives the
    /// request's id. Such a message must not reach the handler; any other message changes nothing.
    pub fn try_take_response(&mut self, message: &Json) -> (r: Option<String>)
        ensures
            match r {
                Some(key) => answered_key(message@) == Some(key@) && old(self)@.pending.contains(
                    key@,
                ) && final(self)@ == (SessionView {
                    pending: old(self)@.pending.remove(key@),
                    ..old(self)@
                }) && final(self)@.pending.len() + 1 == old(self)@.pending.len(),
                None => final(self)@ == old(self)@ && (answered_key(message@) matches Some(key)
                    ==> !old(self)@.pending.contains(key)),
            },
    {
        if message.get("method").is_some() {
            return None;
        }
        let key = match message.get("id") {
            Some(id) => match id_key(id) {
                Some(key) => key,
                None => {
                    return None;
                },
            },
            None => {
                return None;
            },
        };
        if !self.pending.contains_key(key.as_str()) {
            return None;
        }
        let ghost before = *self;
        self.pending.remove(key.as_str());
        assert(self.pending@.dom() =~= before.pending@.dom().remove(key@));
        Some(key)
    }

    /// Waits for nothing any more.
    pub fn close(&mut self)
        ensures
            final(self)@ == (SessionView { pending: Set::empty(), ..old(self)@ }),
    {
        self.pending.clear();
        assert(self.pending@.dom() =~= Set::<Seq<char>>::empty());
    }

    /// The number of requests that wait for an answer.
    pub fn pending_count(&self) -> (n: usize)
        ensures
            self@.pending.finite(),
            n == self@.pending.len(),
    {
        self.pending.len()
    }

    /// Waits for the answer to the request `id`.
    pub fn register(&mut self, id: &str)
        ensures
            final(self)@ == (SessionView { pending: old(self)@.pending.insert(id@), ..old(self)@ }),
    {
        let ghost before = *self;
        self.pending.insert(id, ());
        assert(self.pending@.dom() =~= before.pending@.dom().insert(id@));
    }

    /// Waits for the answer to the request `id` no longer.
    pub fn release(&mut self, id: &str)
        ensures
            final(self)@ == (SessionView { pending: old(self)@.pending.remove(id@), ..old(self)@ }),
    {
        let ghost before = *self;
        self.pending.remove(id);
        assert(self.pending@.dom() =~= before.pending@.dom().remove(id@));
    }

    /// Makes a request under a fresh id and waits for its answer: gives the id and the message.
    pub fn request(&mut self, method: &str, params: Json) -> (r: (String, Json))
        ensures
            minted(r.0@),
            r.1@ == request_view(r.0@, method@, params@),
            final(self)@ == (SessionView {
                pending: old(self)@.pending.insert(r.0@),
                ..old(self)@
            }),
    {
        let uuid = ids::fresh_uuid();
        let id = REQUEST_PREFIX.to_string().concat(uuid.as_str());
        assert(id@.take(REQUEST_PREFIX@.len() as int) =~= REQUEST_PREFIX@);
        assert(uuid@ =~= id@.skip(REQUEST_PREFIX@.len() as int));
        self.register(id.as_str());
        let message = Json::object().with("jsonrpc", Json::text("2.0")).with(
            "id",
            Json::text(id.as_str()),
        ).with("method", Json::text(method)).with("params", params);
        (id, message)
    }

    /// What waiting for an answer comes to.
    pub fn await_outcome(&self, waited: Waited) -> (r: Result<Json, SessionError>)
        ensures
            match waited {
                Waited::Answered(response) => r matches Ok(answer) && answer@ == response@,
                Waited::Closed => r matches Err(SessionError::Closed),
                Waited::TimedOut => r matches Err(SessionError::Timeout(limit)) && limit
                    == self@.elicit_timeout,
            },
    {
        match waited {
            Waited::Answered(response) => Ok(response),
            Waited::Closed => Err(SessionError::Closed),
            Waited::TimedOut => Err(SessionError::Timeout(self.elicit_timeout)),
        }
    }

    /// Asks the client to fill in a form, where it can be asked: gives the request's id and the
    /// message.
    pub fn elicit_form(&mut self, message: &str, requested_schema: &Json) -> (r: Result<
        (String, Json),
        SessionError,
    >)
        ensures
            match r {
                Ok((id, request)) => old(self)@.elicits() && minted(id@) && request@ == request_view(
                    id@,
                    "elicitation/create"@,
                    JsonView::object().with("message"@, JsonView::text(message@)).with(
                        "requestedSchema"@,
                        requested_schema@,
                    ),
                ) && final(self)@ == (SessionView {
                    pending: old(self)@.pending.insert(id@),
                    ..old(self)@
                }),
                Err(error) => {
                    &&& !old(self)@.elicits()
                    &&& error is ElicitationUnsupported
                    &&& final(self)@ == old(self)@
                },
            },
    {
        if !self.supports_elicitation() {
            return Err(SessionError::ElicitationUnsupported);
        }
        let params = Json::object().with("message", Json::text(message)).with(
            "requestedSchema",
            requested_schema.clone(),
        );
        let request = self.request("elicitation/create", params);
        Ok(request)
    }
}

/// What the answer to an elicitation says, where `parse` reads the document that a client answers a
/// form with, or tells why it cannot be read.
pub fn read_elicitation<F: Fn(&Json) -> Result<ElicitResult, String>>(
    response: &Json,
    parse: F,
) -> (r: Result<ElicitResult, SessionError>)
    requires
        forall|document: &Json| call_requires(parse, (document,)),
    ensures
        match elicited(response@) {
            Elicited::Answer(result) => exists|
                document: &Json,
                parsed: Result<ElicitResult, String>,
            | #[trigger]
                call_ensures(parse, (document,), parsed) && document@ == result && match parsed {
                    Ok(answer) => r == Ok::<ElicitResult, SessionError>(answer),
                    Err(why) => r == Err::<ElicitResult, SessionError>(
                        SessionError::Malformed(why),
                    ),
                },
            Elicited::Refused(message) => r matches Err(SessionError::ClientError(detail))
                && detail@ == message,
            Elicited::Nothing => r matches Err(SessionError::Malformed(detail)) && detail@
                == "response has neither result nor error"@,
        },
{
    if let Some(error) = response.get("error") {
        let detail = match json::text_of(error.get("message")) {
            Some(s) => s.to_string(),
            None => "unspecified".to_string(),
        };
        return Err(SessionError::ClientError(detail));
    }
    match response.get("result") {
        Some(result) => match parse(result) {
            Ok(answer) => Ok(answer),
            Err(why) => Err(SessionError::Malformed(why)),
        },
        None => Err(SessionError::Malformed("response has neither result nor error".to_string())),
    }
}

/// The connections that are alive, by their ids.
pub struct SessionRegistry {
    sessions: Vec<McpSession>,
}

impl View for SessionRegistry {
    type V = Seq<SessionView>;

    closed spec fn view(&self) -> Seq<SessionView> {
        sessions_of(self.sessions@)
    }
}

/// What the sessions of a list are.
pub closed spec fn sessions_of(sessions: Seq<McpSession>) -> Seq<SessionView> {
    sessions.map_values(|session: McpSession| session@)
}

/// The session at `i` has the id `id`.
pub open spec fn session_at(sessions: Seq<SessionView>, id: Seq<char>, i: int) -> bool {
    0 <= i < sessions.len() && sessions[i].id == id
}

/// Whether a session has the id `id`.
pub open spec fn alive(sessions: Seq<SessionView>, id: Seq<char>) -> bool {
    exists|i: int| session_at(sessions, id, i)
}

/// The session with the id `id`.
pub open spec fn session_of(sessions: Seq<SessionView>, id: Seq<char>) -> SessionView {
    sessions[choose|i: int| session_at(sessions, id, i)]
}

/// No id belongs to two sessions.
pub open spec fn sessions_unique(sessions: Seq<SessionView>) -> bool {
    forall|i: int, j: int|
        0 <= i < j < sessions.len() ==> (#[trigger] sessions[i]).id != (#[trigger] sessions[j]).id
}

/// `sessions` without the one with the id `id`.
pub open spec fn without_id(sessions: Seq<SessionView>, id: Seq<char>) -> Seq<SessionView> {
    if alive(sessions, id) {
        sessions.remove(choose|i: int| session_at(sessions, id, i))
    } else {
        sessions
    }
}

proof fn lemma_session_at(sessions: Seq<SessionView>, id: Seq<char>, i: int)
    requires
        sessions_unique(sessions),
        session_at(sessions, id, i),
    ensures
        alive(sessions, id),
        (choose|k: int| session_at(sessions, id, k)) == i,
{
    let k = choose|k: int| session_at(sessions, id, k);
    assert(session_at(sessions, id, k));
}

impl Default for SessionRegistry {
    fn default() -> (registry: SessionRegistry)
        ensures
            registry@ == Seq::<SessionView>::empty(),
    {
        SessionRegistry::new()
    }
}

impl SessionRegistry {
    #[verifier::type_invariant]
    spec fn ids_once(self) -> bool {
        sessions_unique(self@)
    }

    /// No session is alive.
    pub fn new() -> (registry: SessionRegistry)
        ensures
            registry@ == Seq::<SessionView>::empty(),
    {
        let sessions: Vec<McpSession> = Vec::new();
        assert(sessions_of(sessions@) =~= Seq::<SessionView>::empty());
        SessionRegistry { sessions }
    }

    fn find(&self, session_id: &str) -> (r: Option<usize>)
        ensures
            match r {
                Some(i) => session_at(self@, session_id@, i as int),
                None => !alive(self@, session_id@),
            },
    {
        let mut i: usize = 0;
        while i < self.sessions.len()
            invariant
                i <= self.sessions.len(),
                self@.len() == self.sessions@.len(),
                forall|j: int| 0 <= j < i ==> (#[trigger] self@[j]).id != session_id@,
            decreases self.sessions.len() - i,
        {
            assert(self@[i as int] == self.sessions@[i as int]@);
            if text::same(self.sessions[i].id(), session_id) {
                return Some(i);
            }
            i = i + 1;
        }
        assert forall|j: int| !session_at(self@, session_id@, j) by {}
        None
    }

    /// Registers `session` under its own id, in place of any that has it.
    pub fn insert(&mut self, session: McpSession)
        ensures
            final(self)@ == without_id(old(self)@, session@.id).push(session@),
    {
        let ghost before = self@;
        let id = session.id().to_string();
        let _ = self.remove(id.as_str());
        proof {
            use_type_invariant(&*self);
        }
        let ghost rest = self@;
        let mut sessions: Vec<McpSession> = Vec::new();
        std::mem::swap(&mut sessions, &mut self.sessions);
        let ghost added = session@;
        sessions.push(session);
        proof {
            assert(sessions_of(sessions@) =~= rest.push(added));
            assert forall|j: int| 0 <= j < rest.len() implies (#[trigger] rest[j]).id
                != added.id by {
                if rest[j].id == added.id {
                    assert(session_at(rest, added.id, j));
                }
            }
        }
        self.sessions = sessions;
    }

    /// The session with the id `session_id`.
    pub fn get(&self, session_id: &str) -> (r: Option<&McpSession>)
        ensures
            match r {
                Some(session) => alive(self@, session_id@) && session@ == session_of(
                    self@,
                    session_id@,
                ),
                None => !alive(self@, session_id@),
            },
    {
        proof {
            use_type_invariant(self);
        }
        match self.find(session_id) {
            Some(i) => {
                proof {
                    lemma_session_at(self@, session_id@, i as int);
                }
                assert(self@[i as int] == self.sessions@[i as int]@);
                Some(&self.sessions[i])
            },
            None => None,
        }
    }

    /// Takes out the session with the id `session_id`, as it is. Inserting it again puts back what
    /// became of it.
    pub fn take_out(&mut self, session_id: &str) -> (r: Option<McpSession>)
        ensures
            final(self)@ == without_id(old(self)@, session_id@),
            !alive(final(self)@, session_id@),
            match r {
                Some(session) => alive(old(self)@, session_id@) && session@ == session_of(
                    old(self)@,
                    session_id@,
                ) && session@.id == session_id@,
                None => !alive(old(self)@, session_id@),
            },
    {
        proof {
            use_type_invariant(&*self);
        }
        let ghost before = self@;
        match self.find(session_id) {
            Some(i) => {
                proof {
                    lemma_session_at(before, session_id@, i as int);
                }
                let mut sessions: Vec<McpSession> = Vec::new();
                std::mem::swap(&mut sessions, &mut self.sessions);
                assert(sessions_of(sessions@) == before);
                assert(before[i as int] == sessions@[i as int]@);
                let session = sessions.remove(i);
                proof {
                    let after = sessions_of(sessions@);
                    assert(after =~= before.remove(i as int));
                    assert forall|j: int| !session_at(after, session_id@, j) by {
                        if session_at(after, session_id@, j) {
                            assert(after[j] == before[if j < i { j } else { j + 1 }]);
                        }
                    }
                }
                self.sessions = sessions;
                Some(session)
            },
            None => None,
        }
    }

    /// Takes out the session with the id `session_id`, closed.
    pub fn remove(&mut self, session_id: &str) -> (r: Option<McpSession>)
        ensures
            final(self)@ == without_id(old(self)@, session_id@),
            !alive(final(self)@, session_id@),
            match r {
                Some(session) => alive(old(self)@, session_id@) && session@ == (SessionView {
                    pending: Set::empty(),
                    ..session_of(old(self)@, session_id@)
                }),
                None => !alive(old(self)@, session_id@),
            },
    {
        match self.take_out(session_id) {
            Some(taken) => {
                let mut session = taken;
                session.close();
                Some(session)
            },
            None => None,
        }
    }

    /// The number of sessions.
    pub fn len(&self) -> (n: usize)
        ensures
            n == self@.len(),
    {
        self.sessions.len()
    }

    /// Whether no session is alive.
    pub fn is_empty(&self) -> (r: bool)
        ensures
            r == (self@.len() == 0),
    {
        self.sessions.len() == 0
    }
}

/// A session that was registered is found under its id, as it was registered; the others are found
/// as before.
pub proof fn law_registered_is_found(
    sessions: Seq<SessionView>,
    session: SessionView,
    other: Seq<char>,
)
    requires
        sessions_unique(sessions),
    ensures
        ({
            let after = without_id(sessions, session.id).push(session);
            &&& alive(after, session.id)
            &&& session_of(after, session.id) == session
            &&& other != session.id ==> alive(after, other) == alive(sessions, other)
            &&& other != session.id && alive(sessions, other) ==> session_of(after, other)
                == session_of(sessions, other)
        }),
{
    let rest = without_id(sessions, session.id);
    let after = rest.push(session);
    if alive(sessions, session.id) {
        let p = choose|i: int| session_at(sessions, session.id, i);
        assert(session_at(sessions, session.id, p));
        assert forall|j: int| 0 <= j < rest.len() implies rest[j] == sessions[if j < p {
            j
        } else {
            j + 1
        }] by {}
    }
    assert forall|j: int| 0 <= j < rest.len() implies (#[trigger] rest[j]).id != session.id by {
        if rest[j].id == session.id {
            if alive(sessions, session.id) {
            } else {
                assert(session_at(sessions, session.id, j));
            }
        }
    }
    assert(sessions_unique(after));
    assert(session_at(after, session.id, rest.len() as int));
    lemma_session_at(after, session.id, rest.len() as int);
    if other != session.id {
        if alive(sessions, other) {
            let q = choose|i: int| session_at(sessions, other, i);
            assert(session_at(sessions, other, q));
            let r = if alive(sessions, session.id) && q > (choose|i: int|
                session_at(sessions, session.id, i)) {
                q - 1
            } else {
                q
            };
            assert(after[r] == sessions[q]);
            assert(session_at(after, other, r));
            lemma_session_at(after, other, r);
        } else if alive(after, other) {
            let r = choose|i: int| session_at(after, other, i);
            assert(session_at(after, other, r));
            let q = if alive(sessions, session.id) && r >= (choose|i: int|
                session_at(sessions, session.id, i)) {
                r + 1
            } else {
                r
            };
            assert(session_at(sessions, other, q));
        }
    }
}

/// A session that was taken out is found no more; the others are found as before.
pub proof fn law_removed_is_forgotten(
    sessions: Seq<SessionView>,
    id: Seq<char>,
    other: Seq<char>,
)
    requires
        sessions_unique(sessions),
    ensures
        !alive(without_id(sessions, id), id),
        other != id ==> alive(without_id(sessions, id), other) == alive(sessions, other),
        other != id && alive(sessions, other) ==> session_of(without_id(sessions, id), other)
            == session_of(sessions, other),
{
    let after = without_id(sessions, id);
    if alive(sessions, id) {
        let p = choose|i: int| session_at(sessions, id, i);
        assert(session_at(sessions, id, p));
        assert forall|j: int| 0 <= j < after.len() implies after[j] == sessions[if j < p {
            j
        } else {
            j + 1
        }] by {}
        assert(sessions_unique(after));
        if alive(after, id) {
            let j = choose|j: int| session_at(after, id, j);
            assert(after[j].id == id);
        }
        if other != id && alive(sessions, other) {
            let q = choose|i: int| session_at(sessions, other, i);
            assert(session_at(sessions, other, q));
            let r = if q > p {
                q - 1
            } else {
                q
            };
            assert(session_at(after, other, r));
            lemma_session_at(after, other, r);
        }
        if other != id && alive(after, other) {
            let r = choose|j: int| session_at(after, other, j);
            assert(session_at(sessions, other, if r < p { r } else { r + 1 }));
        }
    }
}

/// An error, even one beside a result, is never taken for the client's consent, and neither is a
/// message without a result.
pub proof fn law_errors_are_no_consent(response: JsonView)
    requires
        response.get("error"@) is Some || response.get("result"@) is None,
    ensures
        !(elicited(response) is Answer),
{
}

/// A request, having a method, is never taken as an answer, whatever its id.
pub proof fn law_requests_are_no_answers(message: JsonView)
    requires
        message.get("method"@) is Some,
    ensures
        answered_key(message) is None,
{
}

/// An error says what went wrong.
pub proof fn law_session_errors_say_what_went_wrong(error: &SessionError, described: String)
    requires
        call_ensures(SessionError::describe, (error,), described),
    ensures
        match error {
            SessionError::ElicitationUnsupported => described@
                == "client did not advertise the elicitation capability"@,
            SessionError::Send(reason) => described@ == "failed to send request to client: "@
                + reason@,
            SessionError::Timeout(limit) => described@ == "client did not answer within "@
                + duration_text(*limit),
            SessionError::Closed => described@ == "session closed while awaiting a response"@,
            SessionError::ClientError(detail) => described@ == "client returned an error: "@
                + detail@,
            SessionError::Malformed(detail) => described@ == "malformed elicitation result: "@
                + detail@,
        },
{
}

/// A session has the id that it was given and waits for nothing; with another limit on waiting it
/// is otherwise the same.
pub proof fn law_fresh_sessions(
    id: &str,
    session: McpSession,
    own: &str,
    waiting: usize,
    asks: bool,
    timeout: std::time::Duration,
    limited: McpSession,
)
    requires
        call_ensures(McpSession::new, (id,), session),
        call_ensures(McpSession::id, (&session,), own),
        call_ensures(McpSession::pending_count, (&session,), waiting),
        call_ensures(McpSession::supports_elicitation, (&session,), asks),
        call_ensures(McpSession::with_elicit_timeout, (session, timeout), limited),
    ensures
        own@ == id@,
        waiting == 0,
        !asks,
        nanoseconds(session@.elicit_timeout) == 300 * 1_000_000_000,
        limited@.elicit_timeout == timeout,
        limited@.id == session@.id && limited@.pending == session@.pending
            && limited@.client_capabilities == session@.client_capabilities,
{
}

/// A client can be asked exactly where the capabilities that it declared last name elicitation with
/// anything but null.
pub proof fn law_clients_say_whether_they_can_be_asked(
    session: &mut McpSession,
    capabilities: Json,
    asks: bool,
)
    requires
        call_ensures(McpSession::set_client_capabilities, (session, capabilities), ()),
        call_ensures(McpSession::supports_elicitation, (&*final(session),), asks),
    ensures
        asks == (match capabilities@.get("elicitation"@) {
            Some(JsonView::Null) => false,
            Some(_) => true,
            None => false,
        }),
        final(session)@.id == old(session)@.id && final(session)@.pending == old(session)@.pending
            && final(session)@.elicit_timeout == old(session)@.elicit_timeout,
{
}

/// A request is one of the protocol's version, with its own id, method and parameters. Its answer,
/// and no other message, is taken, and taken once.
pub proof fn law_requests_wait_for_their_answers(
    session: &mut McpSession,
    method: &str,
    params: Json,
    made: (String, Json),
    answering: &mut McpSession,
    again: &mut McpSession,
    answer: &Json,
    taken: Option<String>,
    twice: Option<String>,
)
    requires
        call_ensures(McpSession::request, (session, method, params), made),
        *old(answering) == *final(session),
        *old(again) == *final(answering),
        call_ensures(McpSession::try_take_response, (answering, answer), taken),
        call_ensures(McpSession::try_take_response, (again, answer), twice),
        answer@.get("id"@) == Some(JsonView::String(made.0@)),
        answer@.get("method"@) is None,
    ensures
        text::has_prefix(made.0@, "apcore-mcp-"@),
        ids::uuid_text(made.0@.skip("apcore-mcp-"@.len() as int)),
        made.1@.get("jsonrpc"@) == Some(JsonView::String("2.0"@)),
        made.1@.get("id"@) == Some(JsonView::String(made.0@)),
        made.1@.get("method"@) == Some(JsonView::String(method@)),
        made.1@.get("params"@) == Some(params@),
        final(session)@.pending.contains(made.0@),
        taken matches Some(id) && id@ == made.0@,
        !final(answering)@.pending.contains(made.0@),
        twice is None,
        forall|other: Seq<char>|
            other != made.0@ ==> (#[trigger] final(answering)@.pending.contains(other) == old(
                session,
            )@.pending.contains(other)),
{
    broadcast use json::group_members;

    reveal_strlit("jsonrpc");
    reveal_strlit("id");
    reveal_strlit("method");
    reveal_strlit("params");
    assert("jsonrpc"@.len() == 7);
    assert("id"@.len() == 2);
    assert("method"@.len() == 6);
    assert("params"@.len() == 6);
    assert("method"@[0] != "params"@[0]);
}

/// What has a method, no id, or an id that nothing waits for is no answer, and changes nothing.
pub proof fn law_other_messages_are_not_taken(
    session: &mut McpSession,
    message: &Json,
    taken: Option<String>,
)
    requires
        call_ensures(McpSession::try_take_response, (session, message), taken),
    ensures
        message@.get("method"@) is Some ==> taken is None,
        message@.get("id"@) is None ==> taken is None,
        message@.get("id"@) matches Some(JsonView::String(id)) ==> !old(session)@.pending.contains(
            id,
        ) ==> taken is None,
        message@.get("id"@) matches Some(JsonView::Null) ==> taken is None,
        taken is None ==> final(session)@ == old(session)@,
        taken matches Some(id) ==> old(session)@.pending.contains(id@),
{
}

/// A number that answers is taken under its decimal notation.
pub proof fn law_numbers_answer_too(
    session: &mut McpSession,
    message: &Json,
    n: i64,
    written: String,
    taken: Option<String>,
)
    requires
        call_ensures(McpSession::try_take_response, (session, message), taken),
        message@.get("method"@) is None,
        message@.get("id"@) == Some(JsonView::Number(NumberView::Int(n as int))),
        call_ensures(text::integer, (n,), written),
        old(session)@.pending.contains(written@),
    ensures
        taken matches Some(id) && id@ == written@,
        !final(session)@.pending.contains(written@),
{
}

/// What is waited for is waited for until it is released or the session is closed.
pub proof fn law_waiting_begins_and_ends(
    session: &mut McpSession,
    releasing: &mut McpSession,
    closing: &mut McpSession,
    id: &str,
    waiting: usize,
)
    requires
        call_ensures(McpSession::register, (session, id), ()),
        *old(releasing) == *final(session),
        *old(closing) == *final(session),
        call_ensures(McpSession::release, (releasing, id), ()),
        call_ensures(McpSession::close, (closing,), ()),
        call_ensures(McpSession::pending_count, (&*final(closing),), waiting),
    ensures
        final(session)@.pending.contains(id@),
        !final(releasing)@.pending.contains(id@),
        forall|other: Seq<char>|
            other != id@ ==> (#[trigger] final(releasing)@.pending.contains(other) == old(
                session,
            )@.pending.contains(other)),
        waiting == 0,
        final(closing)@.id == old(session)@.id && final(closing)@.client_capabilities == old(
            session,
        )@.client_capabilities,
        final(releasing)@.id == old(session)@.id,
{
}

/// Waiting comes to the client's own answer, to the end of the session, or to the session's own
/// limit.
pub proof fn law_waiting_comes_to_an_end(
    session: &McpSession,
    answer: Json,
    answered: Result<Json, SessionError>,
    closed: Result<Json, SessionError>,
    late: Result<Json, SessionError>,
)
    requires
        call_ensures(McpSession::await_outcome, (session, Waited::Answered(answer)), answered),
        call_ensures(McpSession::await_outcome, (session, Waited::Closed), closed),
        call_ensures(McpSession::await_outcome, (session, Waited::TimedOut), late),
    ensures
        answered matches Ok(given) && given@ == answer@,
        closed matches Err(SessionError::Closed),
        late matches Err(SessionError::Timeout(limit)) && limit == session@.elicit_timeout,
{
}

/// A client that can be asked is asked with the message and the form that are given; one that
/// cannot is not asked, and nothing is waited for.
pub proof fn law_clients_are_asked(
    session: &mut McpSession,
    message: &str,
    form: &Json,
    asks: bool,
    asked: Result<(String, Json), SessionError>,
)
    requires
        call_ensures(McpSession::supports_elicitation, (&*old(session),), asks),
        call_ensures(McpSession::elicit_form, (session, message, form), asked),
    ensures
        asked is Ok == asks,
        asked matches Err(error) ==> error is ElicitationUnsupported && final(session)@ == old(
            session,
        )@,
        asked matches Ok(made) ==> made.1@.get("jsonrpc"@) == Some(JsonView::String("2.0"@))
            && made.1@.get("id"@) == Some(JsonView::String(made.0@)) && made.1@.get("method"@)
            == Some(JsonView::String("elicitation/create"@)) && (made.1@.get("params"@) matches Some(
            params,
        ) && params.get("message"@) == Some(JsonView::String(message@)) && params.get(
            "requestedSchema"@,
        ) == Some(form@)) && final(session)@.pending.contains(made.0@),
{
    broadcast use json::group_members;

    reveal_strlit("jsonrpc");
    reveal_strlit("id");
    reveal_strlit("method");
    reveal_strlit("params");
    reveal_strlit("message");
    reveal_strlit("requestedSchema");
    assert("jsonrpc"@.len() == 7);
    assert("id"@.len() == 2);
    assert("method"@.len() == 6);
    assert("params"@.len() == 6);
    assert("message"@.len() == 7);
    assert("requestedSchema"@.len() == 15);
    assert("jsonrpc"@[0] != "message"@[0]);
    assert("method"@[0] != "params"@[0]);
}

/// What a client answers a form with is read from the result of its answer; an error is reported
/// with the client's own message, even beside a result.
pub proof fn law_answers_to_forms_are_read<F: Fn(&Json) -> Result<ElicitResult, String>>(
    response: &Json,
    parse: F,
    read: Result<ElicitResult, SessionError>,
)
    requires
        call_ensures(read_elicitation::<F>, (response, parse), read),
    ensures
        response@.get("error"@) matches Some(error) ==> (read matches Err(
            SessionError::ClientError(detail),
        ) && match error.get("message"@) {
            Some(JsonView::String(s)) => detail@ == s,
            _ => detail@ == "unspecified"@,
        }),
        response@.get("error"@) is None && response@.get("result"@) is None ==> (read matches Err(
            SessionError::Malformed(detail),
        ) && detail@ == "response has neither result nor error"@),
        response@.get("error"@) is None ==> (response@.get("result"@) matches Some(result)
            ==> exists|document: &Json, parsed: Result<ElicitResult, String>| #[trigger]
            call_ensures(parse, (document,), parsed) && document@ == result && match parsed {
                Ok(answer) => read matches Ok(given) && given == answer,
                Err(why) => read matches Err(SessionError::Malformed(detail)) && detail == why,
            }),
{
}

/// A connection that was registered is found under its id as it was registered, until it is taken
/// out, as it is, or removed, closed; the registry counts it exactly once.
pub proof fn law_registries_keep_sessions(
    registry: &mut SessionRegistry,
    taking: &mut SessionRegistry,
    removing: &mut SessionRegistry,
    session: McpSession,
    id: &str,
    found: Option<&McpSession>,
    taken: Option<McpSession>,
    removed: Option<McpSession>,
    gone: Option<&McpSession>,
    n: usize,
    m: usize,
    fresh: SessionRegistry,
    zero: usize,
    empty: bool,
)
    requires
        sessions_unique(old(registry)@),
        id@ == session@.id,
        call_ensures(SessionRegistry::insert, (registry, session), ()),
        call_ensures(SessionRegistry::get, (&*final(registry), id), found),
        *old(taking) == *final(registry),
        *old(removing) == *final(registry),
        call_ensures(SessionRegistry::take_out, (taking, id), taken),
        call_ensures(SessionRegistry::remove, (removing, id), removed),
        call_ensures(SessionRegistry::get, (&*final(taking), id), gone),
        call_ensures(SessionRegistry::len, (&*final(registry),), n),
        call_ensures(SessionRegistry::len, (&*final(taking),), m),
        call_ensures(SessionRegistry::new, (), fresh),
        call_ensures(SessionRegistry::len, (&fresh,), zero),
        call_ensures(SessionRegistry::is_empty, (&fresh,), empty),
    ensures
        found matches Some(kept) && kept@ == session@,
        taken matches Some(given) && given@ == session@,
        removed matches Some(given) && given@.id == session@.id && given@.pending == Set::<
            Seq<char>,
        >::empty() && given@.client_capabilities == session@.client_capabilities,
        gone is None,
        n == m + 1,
        zero == 0 && empty,
        final(removing)@ == final(taking)@,
{
    law_registered_is_found(old(registry)@, session@, session@.id);
    let rest = without_id(old(registry)@, session@.id);
    let all = final(registry)@;
    assert(session_at(all, session@.id, rest.len() as int));
}

/// No session is alive by default.
pub proof fn law_no_session_by_default(registry: SessionRegistry)
    requires
        call_ensures(<SessionRegistry as Default>::default, (), registry),
    ensures
        registry@.len() == 0,
{
}

/// Each request that is waited for is counted, and a connection is found whatever becomes of the
/// others.
pub proof fn law_waiting_is_counted(
    session: &mut McpSession,
    id: &str,
    n: usize,
    m: usize,
    registry: &mut SessionRegistry,
    other: &str,
    before: Option<&McpSession>,
    after: Option<&McpSession>,
    added: McpSession,
)
    requires
        !old(session)@.pending.contains(id@),
        call_ensures(McpSession::pending_count, (&*old(session),), n),
        call_ensures(McpSession::register, (session, id), ()),
        call_ensures(McpSession::pending_count, (&*final(session),), m),
        sessions_unique(old(registry)@),
        other@ != added@.id,
        call_ensures(SessionRegistry::get, (&*old(registry), other), before),
        call_ensures(SessionRegistry::insert, (registry, added), ()),
        call_ensures(SessionRegistry::get, (&*final(registry), other), after),
    ensures
        m == n + 1,
        match (before, after) {
            (Some(a), Some(b)) => a@ == b@,
            (None, None) => true,
            _ => false,
        },
{
    law_registered_is_found(old(registry)@, added@, other@);
}

/// Taking one connection out, or removing it, leaves every other as it is.
pub proof fn law_other_connections_stay(
    taking: &mut SessionRegistry,
    removing: &mut SessionRegistry,
    id: &str,
    other: &str,
    taken: Option<McpSession>,
    removed: Option<McpSession>,
    before: Option<&McpSession>,
    after_take: Option<&McpSession>,
    after_remove: Option<&McpSession>,
)
    requires
        sessions_unique(old(taking)@),
        *old(removing) == *old(taking),
        other@ != id@,
        call_ensures(SessionRegistry::take_out, (taking, id), taken),
        call_ensures(SessionRegistry::remove, (removing, id), removed),
        call_ensures(SessionRegistry::get, (&*old(taking), other), before),
        call_ensures(SessionRegistry::get, (&*final(taking), other), after_take),
        call_ensures(SessionRegistry::get, (&*final(removing), other), after_remove),
    ensures
        match (before, after_take, after_remove) {
            (Some(a), Some(b), Some(c)) => a@ == b@ && a@ == c@,
            (None, None, None) => true,
            _ => false,
        },
{
    law_removed_is_forgotten(old(taking)@, id@, other@);
}

} // verus!
