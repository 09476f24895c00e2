use vstd::prelude::*;
use vstd::string::StringExecFns;
use crate::message::{Message, MessageView};

verus! {

/// Where one client connection stands.
#[derive(Debug)]
pub enum SessionState {
    /// The username prompt has been handed to the transport.
    Connecting,
    /// The prompt went out; the next line read is the username.
    AwaitingUsername,
    /// The welcome for `username` has been handed to the transport; the client
    /// joins once it is written.
    Greeting { username: String },
    /// The client is in the chat under `username`.
    Active { username: String },
    /// The session is over; nothing more happens on it. A client that leaves
    /// passes through closing on the way: the step into this state asks for the
    /// departure broadcast and then the deregistration.
    Closed,
}

/// What the transport reports back to a session.
#[derive(Debug)]
pub enum SessionEvent {
    /// The last line handed to the transport was written.
    Sent,
    /// Writing the last line handed to the transport failed.
    SendFailed,
    /// One complete line was read from the client.
    LineRead { line: String },
    /// The stream ended, or a read failed or was malformed.
    StreamEnded,
}

/// What a session asks of the code that runs it, in the order given.
#[derive(Debug)]
pub enum SessionAction {
    /// Write this line straight to the client.
    Send { line: String },
    /// Register this connection, and start its writer on the channel obtained.
    Register,
    /// Broadcast this message from this connection to every other peer.
    Broadcast { message: Message },
    /// Deregister this connection.
    Deregister,
}

/// A session state as contracts see it.
pub enum StateModel {
    Connecting,
    AwaitingUsername,
    Greeting { username: Seq<char> },
    Active { username: Seq<char> },
    Closed,
}

/// An event as contracts see it.
pub enum EventModel {
    Sent,
    SendFailed,
    LineRead { line: Seq<char> },
    StreamEnded,
}

/// An action as contracts see it.
pub enum ActionModel {
    Send { line: Seq<char> },
    Register,
    Broadcast { message: MessageView },
    Deregister,
}

impl View for SessionState {
    type V = StateModel;

    open spec fn view(&self) -> StateModel {
        match self {
            SessionState::Connecting => StateModel::Connecting,
            SessionState::AwaitingUsername => StateModel::AwaitingUsername,
            SessionState::Greeting { username } => StateModel::Greeting { username: username@ },
            SessionState::Active { username } => StateModel::Active { username: username@ },
            SessionState::Closed => StateModel::Closed,
        }
    }
}

impl View for SessionEvent {
    type V = EventModel;

    open spec fn view(&self) -> EventModel {
        match self {
            SessionEvent::Sent => EventModel::Sent,
            SessionEvent::SendFailed => EventModel::SendFailed,
            SessionEvent::LineRead { line } => EventModel::LineRead { line: line@ },
            SessionEvent::StreamEnded => EventModel::StreamEnded,
        }
    }
}

impl View for SessionAction {
    type V = ActionModel;

    open spec fn view(&self) -> ActionModel {
        match self {
            SessionAction::Send { line } => ActionModel::Send { line: line@ },
            SessionAction::Register => ActionModel::Register,
            SessionAction::Broadcast { message } => ActionModel::Broadcast { message: message@ },
            SessionAction::Deregister => ActionModel::Deregister,
        }
    }
}

/// A list of actions as contracts see it.
pub open spec fn actions_view(v: Seq<SessionAction>) -> Seq<ActionModel> {
    v.map_values(|a: SessionAction| a@)
}

/// The first line a client is sent.
pub open spec fn prompt_line() -> Seq<char> {
    "Enter your username:"@
}

/// The line a client is sent once it has given its username.
pub open spec fn welcome_line(username: Seq<char>) -> Seq<char> {
    "Welcome, "@ + username + "!"@
}

/// The name system announcements are sent under.
pub open spec fn server_name() -> Seq<char> {
    "Server"@
}

/// What the others are told when `username` joins.
pub open spec fn join_announcement(username: Seq<char>) -> MessageView {
    MessageView { sender: server_name(), content: username + " has joined the chat."@ }
}

/// What the others are told when `username` leaves.
pub open spec fn leave_announcement(username: Seq<char>) -> MessageView {
    MessageView { sender: server_name(), content: username + " has left the chat."@ }
}

/// The state a session moves to on an event.
pub open spec fn next_state(s: StateModel, e: EventModel) -> StateModel {
    match (s, e) {
        (StateModel::Connecting, EventModel::Sent) => StateModel::AwaitingUsername,
        (StateModel::Connecting, EventModel::SendFailed) => StateModel::Closed,
        (StateModel::Connecting, EventModel::StreamEnded) => StateModel::Closed,
        (StateModel::AwaitingUsername, EventModel::LineRead { line }) => StateModel::Greeting {
            username: line,
        },
        (StateModel::AwaitingUsername, EventModel::SendFailed) => StateModel::Closed,
        (StateModel::AwaitingUsername, EventModel::StreamEnded) => StateModel::Closed,
        (StateModel::Greeting { username }, EventModel::Sent) => StateModel::Active { username },
        (StateModel::Greeting { .. }, EventModel::SendFailed) => StateModel::Closed,
        (StateModel::Greeting { .. }, EventModel::StreamEnded) => StateModel::Closed,
        (StateModel::Active { .. }, EventModel::StreamEnded) => StateModel::Closed,
        (s, _) => s,
    }
}

/// What a session asks for on an event.
pub open spec fn next_actions(s: StateModel, e: EventModel) -> Seq<ActionModel> {
    match (s, e) {
        (StateModel::AwaitingUsername, EventModel::LineRead { line }) => seq![
            ActionModel::Send { line: welcome_line(line) },
        ],
        (StateModel::Greeting { username }, EventModel::Sent) => seq![
            ActionModel::Register,
            ActionModel::Broadcast { message: join_announcement(username) },
        ],
        (StateModel::Active { username }, EventModel::LineRead { line }) => seq![
            ActionModel::Broadcast { message: MessageView { sender: username, content: line } },
        ],
        (StateModel::Active { username }, EventModel::StreamEnded) => seq![
            ActionModel::Broadcast { message: leave_announcement(username) },
            ActionModel::Deregister,
        ],
        _ => Seq::empty(),
    }
}

fn concat3(a: &str, b: &str, c: &str) -> (r: String)
    ensures
        r@ == a@ + b@ + c@,
{
    let mut r = String::from_str(a);
    r.append(b);
    r.append(c);
    r
}

fn concat2(a: &str, b: &str) -> (r: String)
    ensures
        r@ == a@ + b@,
{
    let mut r = String::from_str(a);
    r.append(b);
    r
}

fn server_sender() -> (r: String)
    ensures
        r@ == server_name(),
{
    String::from_str("Server")
}

impl SessionState {
    /// A new connection: the session starts by sending the username prompt.
    pub fn open() -> (r: (SessionState, Vec<SessionAction>))
        ensures
            r.0@ == StateModel::Connecting,
            actions_view(r.1@) == seq![ActionModel::Send { line: prompt_line() }],
    {
        let mut actions: Vec<SessionAction> = Vec::new();
        actions.push(SessionAction::Send { line: String::from_str("Enter your username:") });
        assert(actions_view(actions@) =~= seq![ActionModel::Send { line: prompt_line() }]);
        (SessionState::Connecting, actions)
    }

    /// Whether the session is over.
    pub fn is_closed(&self) -> (r: bool)
        ensures
            r == (self@ is Closed),
    {
        match self {
            SessionState::Closed => true,
            _ => false,
        }
    }

    /// Takes the session one step on `event`: the new state, and what to do.
    pub fn step(self, event: SessionEvent) -> (r: (SessionState, Vec<SessionAction>))
        ensures
            r.0@ == next_state(self@, event@),
            actions_view(r.1@) == next_actions(self@, event@),
    {
        let ghost s = self@;
        let ghost e = event@;
        let mut actions: Vec<SessionAction> = Vec::new();
        let next = match self {
            SessionState::Connecting => match event {
                SessionEvent::Sent => SessionState::AwaitingUsername,
                SessionEvent::SendFailed => SessionState::Closed,
                SessionEvent::StreamEnded => SessionState::Closed,
                SessionEvent::LineRead { .. } => SessionState::Connecting,
            },
            SessionState::AwaitingUsername => match event {
                SessionEvent::LineRead { line } => {
                    let welcome = concat3("Welcome, ", line.as_str(), "!");
                    actions.push(SessionAction::Send { line: welcome });
                    SessionState::Greeting { username: line }
                },
                SessionEvent::Sent => SessionState::AwaitingUsername,
                SessionEvent::SendFailed => SessionState::Closed,
                SessionEvent::StreamEnded => SessionState::Closed,
            },
            SessionState::Greeting { username } => match event {
                SessionEvent::Sent => {
                    let joined = concat2(username.as_str(), " has joined the chat.");
                    actions.push(SessionAction::Register);
                    actions.push(
                        SessionAction::Broadcast { message: Message::new(server_sender(), joined) },
                    );
                    SessionState::Active { username }
                },
                SessionEvent::SendFailed => SessionState::Closed,
                SessionEvent::StreamEnded => SessionState::Closed,
                SessionEvent::LineRead { .. } => SessionState::Greeting { username },
            },
            SessionState::Active { username } => match event {
                SessionEvent::LineRead { line } => {
                    let sender = username.clone();
                    actions.push(
                        SessionAction::Broadcast { message: Message::new(sender, line) },
                    );
                    SessionState::Active { username }
                },
                SessionEvent::Sent => SessionState::Active { username },
                SessionEvent::SendFailed => SessionState::Active { username },
                SessionEvent::StreamEnded => {
                    let left = concat2(username.as_str(), " has left the chat.");
                    actions.push(
                        SessionAction::Broadcast { message: Message::new(server_sender(), left) },
                    );
                    actions.push(SessionAction::Deregister);
                    SessionState::Closed
                },
            },
            SessionState::Closed => SessionState::Closed,
        };
        proof {
            assert(actions_view(actions@) =~= next_actions(s, e));
        }
        (next, actions)
    }
}

} // verus!
