//! The dispatcher: how a new or edited message is resolved against the
//! session chain, what is to be done about it, and what is remembered once
//! the reply has gone out.
use crate::context::BotContext;
use crate::language::{command_language, CodeLanguage};
use crate::session::{CodeSession, Session, SessionModel};
use crate::text::{argument, argument_of, chars_of};
use vstd::prelude::*;

verus! {

/// A message, by channel and message id.
#[derive(Clone, Copy, Debug, PartialEq, Eq, Structural)]
pub struct MessageRef {
    pub chat: i64,
    pub id: i64,
}

/// What an incoming message answers.
#[derive(Clone, Copy, Debug, PartialEq, Eq, Structural)]
pub enum ReplyTo {
    Nothing,
    Message(MessageRef),
    ChannelPost,
}

/// An incoming message as the dispatcher reads it; `text` is `None` for a
/// message that carries no text.
pub struct IncomingMessage {
    pub chat: i64,
    pub id: i64,
    pub text: Option<String>,
    pub reply_to: ReplyTo,
}

/// A resolved execution request with its lineage.
pub struct CodeMessage {
    pub code: String,
    pub language: CodeLanguage,
    pub input: String,
    /// The message that holds the real session, for a re-run by reply.
    pub root_session: Option<i64>,
    /// The bot's earlier reply to this very message, if it has one.
    pub prev_session: Option<i64>,
}

pub struct CodeMessageModel {
    pub code: Seq<char>,
    pub language: CodeLanguage,
    pub input: Seq<char>,
    pub root_session: Option<i64>,
    pub prev_session: Option<i64>,
}

impl View for CodeMessage {
    type V = CodeMessageModel;

    open spec fn view(&self) -> CodeMessageModel {
        CodeMessageModel {
            code: self.code@,
            language: self.language,
            input: self.input@,
            root_session: self.root_session,
            prev_session: self.prev_session,
        }
    }
}

/// The body sent to an execution backend.
pub struct CodeRequest {
    pub code: String,
    pub input: String,
}

/// What the dispatcher asks of the transport for one event.
pub enum Action {
    /// Not a code message: nothing is sent.
    Ignore,
    /// Run the request and send the result as a new reply.
    Send { request: CodeMessage },
    /// Run the request and put the result in place of reply `reply_id`.
    Edit { request: CodeMessage, reply_id: i64 },
}

pub enum ActionModel {
    Ignore,
    Send(CodeMessageModel),
    Edit(CodeMessageModel, i64),
}

impl View for Action {
    type V = ActionModel;

    open spec fn view(&self) -> ActionModel {
        match self {
            Action::Ignore => ActionModel::Ignore,
            Action::Send { request } => ActionModel::Send(request@),
            Action::Edit { request, reply_id } => ActionModel::Edit(request@, *reply_id),
        }
    }
}

pub type StoreModel = Map<(i64, i64), SessionModel>;

/// The reply that the bot already gave to message `(chat, id)`, if any.
pub open spec fn previous_reply(store: StoreModel, chat: i64, id: i64) -> Option<i64> {
    if store.contains_key((chat, id)) {
        match store[(chat, id)] {
            SessionModel::Replied { reply_id } => Some(reply_id),
            _ => None,
        }
    } else {
        None
    }
}

/// The real session that a replied-to message leads to, following at most
/// one reference: its language, its code and the message that holds it.
pub open spec fn chain_root(store: StoreModel, r: MessageRef) -> Option<
    (CodeLanguage, Seq<char>, i64),
> {
    if store.contains_key((r.chat, r.id)) {
        match store[(r.chat, r.id)] {
            SessionModel::Real { language, code } => Some((language, code, r.id)),
            SessionModel::Reference { id } => if store.contains_key((r.chat, id)) {
                match store[(r.chat, id)] {
                    SessionModel::Real { language, code } => Some((language, code, id)),
                    _ => None,
                }
            } else {
                None
            },
            SessionModel::Replied { .. } => None,
        }
    } else {
        None
    }
}

/// The request that a message makes, if any.
pub open spec fn resolved(store: StoreModel, m: IncomingMessage) -> Option<CodeMessageModel> {
    let prev = previous_reply(store, m.chat, m.id);
    match m.text {
        None => None,
        Some(t) => match m.reply_to {
            ReplyTo::Message(r) => match chain_root(store, r) {
                Some((language, code, root)) => Some(
                    CodeMessageModel {
                        code,
                        language,
                        input: t@,
                        root_session: Some(root),
                        prev_session: prev,
                    },
                ),
                None => None,
            },
            ReplyTo::ChannelPost => None,
            ReplyTo::Nothing => match command_language(t@) {
                Some(language) => Some(
                    CodeMessageModel {
                        code: argument_of(t@),
                        language,
                        input: Seq::empty(),
                        root_session: None,
                        prev_session: prev,
                    },
                ),
                None => None,
            },
        },
    }
}

/// What a new message asks for.
pub open spec fn message_action(store: StoreModel, m: IncomingMessage) -> ActionModel {
    match resolved(store, m) {
        Some(c) => ActionModel::Send(c),
        None => ActionModel::Ignore,
    }
}

/// What an edited message asks for: an edit of the earlier reply where
/// there is one, else the same as a new message.
pub open spec fn update_action(store: StoreModel, m: IncomingMessage) -> ActionModel {
    match resolved(store, m) {
        Some(c) => match c.prev_session {
            Some(reply_id) => ActionModel::Edit(c, reply_id),
            None => ActionModel::Send(c),
        },
        None => ActionModel::Ignore,
    }
}

/// The session stored under the bot's reply: the code itself for a fresh
/// submission, a reference to the root for a re-run.
pub open spec fn reply_session(c: CodeMessageModel) -> SessionModel {
    match c.root_session {
        Some(id) => SessionModel::Reference { id },
        None => SessionModel::Real { language: c.language, code: c.code },
    }
}

fn previous_reply_of(context: &BotContext, chat: i64, id: i64) -> (r: Option<i64>)
    ensures
        r == previous_reply(context.session@, chat, id),
{
    match context.session.get(chat, id) {
        Some(Session::Code(CodeSession::Replied { reply_id })) => Some(*reply_id),
        _ => None,
    }
}

fn real_session_at(context: &BotContext, r: MessageRef) -> (res: Option<(CodeLanguage, String, i64)>)
    ensures
        match res {
            Some((language, code, root)) => chain_root(context.session@, r) == Some(
                (language, code@, root),
            ),
            None => chain_root(context.session@, r) is None,
        },
{
    match context.session.get(r.chat, r.id) {
        Some(Session::Code(CodeSession::Real { language, code })) => Some(
            (*language, code.clone(), r.id),
        ),
        Some(Session::Code(CodeSession::Reference { id })) => {
            match context.session.get(r.chat, *id) {
                Some(Session::Code(CodeSession::Real { language, code })) => Some(
                    (*language, code.clone(), *id),
                ),
                _ => None,
            }
        },
        _ => None,
    }
}

/// Resolves a message against the session chain.
pub fn parse_code_message(message: &IncomingMessage, context: &BotContext) -> (r: Option<
    CodeMessage,
>)
    ensures
        match r {
            Some(c) => resolved(context.session@, *message) == Some(c@),
            None => resolved(context.session@, *message) is None,
        },
{
    let data = match &message.text {
        Some(t) => t,
        None => return None,
    };
    let prev_session = previous_reply_of(context, message.chat, message.id);
    match message.reply_to {
        ReplyTo::Message(r) => match real_session_at(context, r) {
            Some((language, code, root)) => Some(
                CodeMessage {
                    code,
                    language,
                    input: data.clone(),
                    root_session: Some(root),
                    prev_session,
                },
            ),
            None => None,
        },
        ReplyTo::ChannelPost => None,
        ReplyTo::Nothing => {
            let cs = chars_of(data.as_str());
            match CodeLanguage::from_command(&cs) {
                Some(language) => Some(
                    CodeMessage {
                        code: argument(data.as_str()),
                        language,
                        input: String::new(),
                        root_session: None,
                        prev_session,
                    },
                ),
                None => None,
            }
        },
    }
}

/// Decides what to do about a new message.
pub fn on_code_message(message: &IncomingMessage, context: &BotContext) -> (r: Action)
    ensures
        r@ == message_action(context.session@, *message),
{
    match parse_code_message(message, context) {
        Some(request) => Action::Send { request },
        None => Action::Ignore,
    }
}

/// Decides what to do about an edited message.
pub fn on_code_update(message: &IncomingMessage, context: &BotContext) -> (r: Action)
    ensures
        r@ == update_action(context.session@, *message),
{
    match parse_code_message(message, context) {
        Some(request) => match request.prev_session {
            Some(reply_id) => Action::Edit { request, reply_id },
            None => Action::Send { request },
        },
        None => Action::Ignore,
    }
}

impl CodeMessage {
    /// The body for the execution backend.
    pub fn request(&self) -> (r: CodeRequest)
        ensures
            r.code@ == self.code@,
            r.input@ == self.input@,
    {
        CodeRequest { code: self.code.clone(), input: self.input.clone() }
    }

    /// The session to store under the bot's reply to this request.
    pub fn reply_session(&self) -> (r: Session)
        ensures
            r@ == reply_session(self@),
    {
        match self.root_session {
            Some(id) => Session::Code(CodeSession::Reference { id }),
            None => Session::Code(
                CodeSession::Real { language: self.language, code: self.code.clone() },
            ),
        }
    }
}

impl BotContext {
    /// Remembers a new reply: under the reply, the session it stems from;
    /// under the triggering message, a pointer to the reply.
    pub fn record_sent(&mut self, message: MessageRef, request: &CodeMessage, reply: MessageRef)
        ensures
            final(self).session@ == old(self).session@.insert(
                (reply.chat, reply.id),
                reply_session(request@),
            ).insert((message.chat, message.id), SessionModel::Replied { reply_id: reply.id }),
            final(self).config == old(self).config,
    {
        self.session.put(reply.chat, reply.id, request.reply_session());
        self.session.put(
            message.chat,
            message.id,
            Session::Code(CodeSession::Replied { reply_id: reply.id }),
        );
    }

    /// Remembers an edited reply: its session is refreshed, and the
    /// triggering message keeps pointing at it.
    pub fn record_edited(&mut self, request: &CodeMessage, reply: MessageRef)
        ensures
            final(self).session@ == old(self).session@.insert(
                (reply.chat, reply.id),
                reply_session(request@),
            ),
            final(self).config == old(self).config,
    {
        self.session.put(reply.chat, reply.id, request.reply_session());
    }
}

/// A reply to a message that holds real code re-runs that code in that
/// language, with the reply's text as input, whatever the text is; the
/// replied-to message is the lineage root.
pub proof fn reply_to_real_session(
    store: StoreModel,
    m: IncomingMessage,
    r: MessageRef,
    language: CodeLanguage,
    code: Seq<char>,
)
    requires
        m.text is Some,
        m.reply_to == ReplyTo::Message(r),
        store.contains_key((r.chat, r.id)),
        store[(r.chat, r.id)] == (SessionModel::Real { language, code }),
    ensures
        resolved(store, m) == Some(
            CodeMessageModel {
                code,
                language,
                input: m.text->Some_0@,
                root_session: Some(r.id),
                prev_session: previous_reply(store, m.chat, m.id),
            },
        ),
{
}

/// A reply to a message that refers to real code elsewhere re-runs that
/// code, and the lineage root is the referred message, not the replied-to
/// one.
pub proof fn reply_to_reference_session(
    store: StoreModel,
    m: IncomingMessage,
    r: MessageRef,
    id: i64,
    language: CodeLanguage,
    code: Seq<char>,
)
    requires
        m.text is Some,
        m.reply_to == ReplyTo::Message(r),
        store.contains_key((r.chat, r.id)),
        store[(r.chat, r.id)] == (SessionModel::Reference { id }),
        store.contains_key((r.chat, id)),
        store[(r.chat, id)] == (SessionModel::Real { language, code }),
    ensures
        resolved(store, m) == Some(
            CodeMessageModel {
                code,
                language,
                input: m.text->Some_0@,
                root_session: Some(id),
                prev_session: previous_reply(store, m.chat, m.id),
            },
        ),
{
}

/// A reply to a reference whose target is missing or holds no real code
/// asks for nothing.
pub proof fn reply_to_dangling_reference(store: StoreModel, m: IncomingMessage, r: MessageRef, id: i64)
    requires
        m.reply_to == ReplyTo::Message(r),
        store.contains_key((r.chat, r.id)),
        store[(r.chat, r.id)] == (SessionModel::Reference { id }),
        !(store.contains_key((r.chat, id)) && store[(r.chat, id)] is Real),
    ensures
        resolved(store, m) is None,
        message_action(store, m) is Ignore,
        update_action(store, m) is Ignore,
{
}

/// Once a reply to a message has been recorded, an edit of that message
/// that still asks for a run edits that same reply; an edit of a message
/// that was never answered asks for one new reply.
pub proof fn edit_targets_previous_reply(
    store: StoreModel,
    message: MessageRef,
    c: CodeMessageModel,
    reply: MessageRef,
    edited: IncomingMessage,
)
    requires
        edited.chat == message.chat,
        edited.id == message.id,
    ensures
        ({
            let after = store.insert((reply.chat, reply.id), reply_session(c)).insert(
                (message.chat, message.id),
                SessionModel::Replied { reply_id: reply.id },
            );
            resolved(after, edited) is Some ==> (update_action(after, edited) matches ActionModel::Edit(
                _,
                rid,
            ) && rid == reply.id)
        }),
        previous_reply(store, edited.chat, edited.id) is None && resolved(store, edited) is Some
            ==> update_action(store, edited) is Send,
{
}

/// A re-run by reply stores, under its own reply, a reference to the same
/// root; a further reply to that reply runs the root's code again.
pub proof fn chained_rerun_keeps_root(
    store: StoreModel,
    message: MessageRef,
    c: CodeMessageModel,
    reply: MessageRef,
    next: IncomingMessage,
    root: i64,
    language: CodeLanguage,
    code: Seq<char>,
)
    requires
        c.root_session == Some(root),
        store.contains_key((reply.chat, root)),
        store[(reply.chat, root)] == (SessionModel::Real { language, code }),
        (message.chat, message.id) != (reply.chat, reply.id),
        (message.chat, message.id) != (reply.chat, root),
        reply.id != root,
        next.text is Some,
        next.reply_to == ReplyTo::Message(reply),
    ensures
        ({
            let after = store.insert((reply.chat, reply.id), reply_session(c)).insert(
                (message.chat, message.id),
                SessionModel::Replied { reply_id: reply.id },
            );
            &&& after[(reply.chat, reply.id)] == (SessionModel::Reference { id: root })
            &&& resolved(after, next) matches Some(n) && n.code == code && n.language == language
                && n.root_session == Some(root) && n.input == next.text->Some_0@
        }),
{
    let after = store.insert((reply.chat, reply.id), reply_session(c)).insert(
        (message.chat, message.id),
        SessionModel::Replied { reply_id: reply.id },
    );
    assert(after[(reply.chat, root)] == store[(reply.chat, root)]);
}

} // verus!
