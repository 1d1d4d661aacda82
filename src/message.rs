use vstd::prelude::*;

verus! {

/// Text of the synthetic message that opens every stream.
pub const GREETING: &'static str = "Welcome back to the chat stream!";

/// Author name of the synthetic welcome message.
pub const SERVER_NAME: &'static str = "Server";

/// One chat message. `datetime` is the instant in milliseconds since the
/// Unix epoch (the store's datetime representation).
#[derive(Debug, Clone, PartialEq, Eq)]
pub struct ChatMessage {
    pub username: String,
    pub message: String,
    pub datetime: i64,
}

/// A user profile: a unique name and the instant of the last login, in
/// milliseconds since the Unix epoch.
#[derive(Debug, Clone, PartialEq, Eq)]
pub struct User {
    pub name: String,
    pub last_login: i64,
}

/// The error kinds that the message subsystem distinguishes.
#[derive(Debug, Clone, Copy, PartialEq, Eq, Structural)]
pub enum ChatError {
    /// The store cannot be reached.
    StoreUnavailable,
    /// The store cannot open a change subscription.
    FeedUnavailable,
    /// A posted message is malformed.
    WriteRejected,
    /// An open change subscription dropped.
    FeedClosed,
    /// The client went away.
    TransportClosed,
}

/// The mathematical value of a chat message.
pub struct MessageView {
    pub username: Seq<char>,
    pub message: Seq<char>,
    pub datetime: i64,
}

impl View for ChatMessage {
    type V = MessageView;

    open spec fn view(&self) -> MessageView {
        MessageView { username: self.username@, message: self.message@, datetime: self.datetime }
    }
}

/// The synthetic welcome message stamped `now`, as a value.
pub open spec fn welcome_view(now: i64) -> MessageView {
    MessageView { username: SERVER_NAME@, message: GREETING@, datetime: now }
}

/// A message may be stored when its author name is not empty.
pub open spec fn acceptable(m: ChatMessage) -> bool {
    m.username@.len() > 0
}

impl ChatMessage {
    pub fn new(username: String, message: String, datetime: i64) -> (r: ChatMessage)
        ensures
            r.username == username,
            r.message == message,
            r.datetime == datetime,
    {
        ChatMessage { username, message, datetime }
    }

    /// A field-by-field copy.
    pub fn duplicate(&self) -> (r: ChatMessage)
        ensures
            r@ == self@,
    {
        ChatMessage {
            username: self.username.clone(),
            message: self.message.clone(),
            datetime: self.datetime,
        }
    }
}

/// The synthetic message that a stream sends first, stamped `now`.
pub fn welcome(now: i64) -> (r: ChatMessage)
    ensures
        r@ == welcome_view(now),
{
    ChatMessage { username: String::from_str(SERVER_NAME), message: String::from_str(GREETING), datetime: now }
}

/// Input check of a posted message: rejected exactly when the author name is
/// empty.
pub fn check_post(m: &ChatMessage) -> (r: Result<(), ChatError>)
    ensures
        r is Ok <==> acceptable(*m),
        r is Err ==> r == Err::<(), ChatError>(ChatError::WriteRejected),
{
    if m.username.as_str().is_empty() {
        Err(ChatError::WriteRejected)
    } else {
        Ok(())
    }
}

} // verus!
