//! The stages between the raw envelope stream and the reply path: the
//! self-message filter, the hydration step's decisions, and the fold loop's
//! handling of produced tasks.

use vstd::prelude::*;

use crate::Error;
use crate::ids::{MessageId, PersonId};
use crate::schema::{Message, WebhookMessage};

verus! {

/// A chat command carried by a message, as the external state machine
/// understands it.
#[derive(Debug, Clone)]
pub enum Command {
    Enable,
    Disable,
    ShowStatus,
    ShowHelp,
    ShowFilter,
    EnableFilter,
    DisableFilter,
    SetFilter(String),
    Unknown,
}

/// A command together with who sent it.
#[derive(Debug, Clone)]
pub struct CommandMessage {
    pub sender_email: String,
    pub sender_id: String,
    pub command: Command,
}

/// A reply to send: the target person and the markdown text.
#[derive(Debug, Clone, PartialEq)]
pub struct Response {
    pub person_id: PersonId,
    pub message: String,
}

/// One unit of side-effecting output of the fold step: send a reply, or
/// send a reply and also schedule a persistence attempt.
#[derive(Debug, PartialEq)]
pub enum Task {
    Reply(Response),
    ReplyAndPersist(Response),
}

/// One unit of input to the fold step, merged from the two event sources.
/// `NoOp` actions are filtered out before the fold.
#[derive(Debug)]
pub enum Action<E> {
    SparkMessage(Message),
    ReviewEvent(E),
    NoOp,
}

/// Whether an envelope should travel on: every post whose embedded sender
/// is the bot itself is dropped, so the bot can never answer itself.
pub fn should_forward(post: &WebhookMessage, bot_id: &PersonId) -> (r: bool)
    ensures
        r == (post.data.person_id@ != bot_id@),
{
    !post.data.person_id.same_as(bot_id)
}

/// The message to hydrate for an envelope: its embedded message id — or
/// nothing when the embedded sender is the bot itself, so such a post never
/// reaches the hydration stage or the fold loop.
pub fn hydration_target(post: &WebhookMessage, bot_id: &PersonId) -> (r: Option<MessageId>)
    ensures
        post.data.person_id@ == bot_id@ ==> r is None,
        post.data.person_id@ != bot_id@ ==> (r matches Some(id) && id@ == post.data.id@),
{
    if should_forward(post, bot_id) {
        Some(MessageId(post.data.id.0.clone()))
    } else {
        None
    }
}

/// What the hydration stage does with one fetch result: a hydrated message
/// travels on; a failed fetch is logged and drops that single message, and
/// never ends the stream.
pub fn hydration_outcome(r: Result<Message, Error>) -> (o: Option<Message>)
    ensures
        r matches Ok(m) ==> o == Some(m),
        r is Err ==> o is None,
{
    match r {
        Ok(m) => Some(m),
        Err(_) => None,
    }
}

/// Whether an action is a no-op, to be dropped before the fold.
pub fn is_noop<E>(a: &Action<E>) -> (r: bool)
    ensures
        r == (a is NoOp),
{
    match a {
        Action::NoOp => true,
        _ => false,
    }
}

/// What one fold step effects, given the task the state machine produced.
#[derive(Debug, PartialEq)]
pub struct StepEffect {
    /// The reply to send now, if any.
    pub reply: Option<Response>,
    /// Whether to schedule one detached persistence attempt. It never
    /// blocks or fails the reply.
    pub persist: bool,
}

/// Turn the fold step's produced task into its effect: a plain reply sends
/// exactly one reply; a reply-and-persist sends exactly one reply and
/// schedules exactly one persistence attempt; no task means no effect.
pub fn apply_task(task: Option<Task>) -> (r: StepEffect)
    ensures
        task is None ==> r.reply is None && !r.persist,
        task matches Some(Task::Reply(resp)) ==> r.reply == Some(resp) && !r.persist,
        task matches Some(Task::ReplyAndPersist(resp)) ==> r.reply == Some(resp) && r.persist,
{
    match task {
        None => StepEffect { reply: None, persist: false },
        Some(Task::Reply(resp)) => StepEffect { reply: Some(resp), persist: false },
        Some(Task::ReplyAndPersist(resp)) => StepEffect { reply: Some(resp), persist: true },
    }
}

} // verus!

