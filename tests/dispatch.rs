use codebot::code::{
    on_code_message, on_code_update, parse_code_message, Action, CodeMessage, IncomingMessage,
    MessageRef, ReplyTo,
};
use codebot::context::{BotConfig, BotContext};
use codebot::language::CodeLanguage;
use codebot::session::{CodeSession, Session, SessionStorage};

const CHAT: i64 = -100;

fn context() -> BotContext {
    BotContext::new(BotConfig::new("http://runner".to_string(), 5))
}

fn fresh(id: i64, text: &str) -> IncomingMessage {
    IncomingMessage { chat: CHAT, id, text: Some(text.to_string()), reply_to: ReplyTo::Nothing }
}

fn reply(id: i64, to: i64, text: &str) -> IncomingMessage {
    IncomingMessage {
        chat: CHAT,
        id,
        text: Some(text.to_string()),
        reply_to: ReplyTo::Message(MessageRef { chat: CHAT, id: to }),
    }
}

fn sent(action: Action) -> CodeMessage {
    match action {
        Action::Send { request } => request,
        _ => panic!("expected a new reply"),
    }
}

fn at(id: i64) -> MessageRef {
    MessageRef { chat: CHAT, id }
}

#[test]
fn fresh_submission_is_sent() {
    let ctx = context();
    let req = sent(on_code_message(&fresh(1, "/py print(1+1)"), &ctx));
    assert_eq!(req.code, "print(1+1)");
    assert_eq!(req.language, CodeLanguage::Python);
    assert_eq!(req.input, "");
    assert_eq!(req.root_session, None);
    assert_eq!(req.prev_session, None);
    let body = req.request();
    assert_eq!(body.code, "print(1+1)");
    assert_eq!(body.input, "");
}

#[test]
fn command_without_code_has_empty_code() {
    let ctx = context();
    let req = sent(on_code_message(&fresh(1, "/hs"), &ctx));
    assert_eq!(req.code, "");
    assert_eq!(req.language, CodeLanguage::Haskell);
}

#[test]
fn ordinary_messages_are_ignored() {
    let ctx = context();
    assert!(matches!(on_code_message(&fresh(1, "hello"), &ctx), Action::Ignore));
    let no_text = IncomingMessage { chat: CHAT, id: 2, text: None, reply_to: ReplyTo::Nothing };
    assert!(matches!(on_code_message(&no_text, &ctx), Action::Ignore));
    let channel = IncomingMessage {
        chat: CHAT,
        id: 3,
        text: Some("/py 1".to_string()),
        reply_to: ReplyTo::ChannelPost,
    };
    assert!(matches!(on_code_message(&channel, &ctx), Action::Ignore));
    assert!(matches!(on_code_message(&reply(4, 99, "input"), &ctx), Action::Ignore));
}

#[test]
fn reply_to_real_session_reruns_code() {
    let mut ctx = context();
    let first = fresh(1, "/py print(input())");
    let req = sent(on_code_message(&first, &ctx));
    ctx.record_sent(at(1), &req, at(2));
    let long_input = "x".repeat(5000);
    let rerun = sent(on_code_message(&reply(3, 2, &long_input), &ctx));
    assert_eq!(rerun.code, "print(input())");
    assert_eq!(rerun.language, CodeLanguage::Python);
    assert_eq!(rerun.input, long_input);
    assert_eq!(rerun.root_session, Some(2));
}

#[test]
fn reply_to_reference_uses_referred_root() {
    let mut ctx = context();
    let req = sent(on_code_message(&fresh(1, "/js console.log(1)"), &ctx));
    ctx.record_sent(at(1), &req, at(2));
    let rerun = sent(on_code_message(&reply(3, 2, "a"), &ctx));
    ctx.record_sent(at(3), &rerun, at(4));
    assert!(matches!(
        ctx.get_session(CHAT, 4),
        Some(Session::Code(CodeSession::Reference { id: 2 }))
    ));
    let again = sent(on_code_message(&reply(5, 4, "new input"), &ctx));
    assert_eq!(again.code, "console.log(1)");
    assert_eq!(again.language, CodeLanguage::Javascript);
    assert_eq!(again.input, "new input");
    assert_eq!(again.root_session, Some(2));
    ctx.record_sent(at(5), &again, at(6));
    assert!(matches!(
        ctx.get_session(CHAT, 6),
        Some(Session::Code(CodeSession::Reference { id: 2 }))
    ));
    assert!(matches!(
        ctx.get_session(CHAT, 5),
        Some(Session::Code(CodeSession::Replied { reply_id: 6 }))
    ));
}

#[test]
fn dangling_reference_is_ignored() {
    let mut ctx = context();
    ctx.session.put(CHAT, 2, Session::Code(CodeSession::Reference { id: 1 }));
    assert!(matches!(on_code_message(&reply(3, 2, "x"), &ctx), Action::Ignore));
    ctx.session.put(CHAT, 1, Session::Code(CodeSession::Replied { reply_id: 7 }));
    assert!(matches!(on_code_message(&reply(3, 2, "x"), &ctx), Action::Ignore));
    assert!(matches!(on_code_update(&reply(3, 2, "x"), &ctx), Action::Ignore));
}

#[test]
fn reply_to_replied_marker_is_ignored() {
    let mut ctx = context();
    let req = sent(on_code_message(&fresh(1, "/py 1"), &ctx));
    ctx.record_sent(at(1), &req, at(2));
    assert!(matches!(on_code_message(&reply(3, 1, "x"), &ctx), Action::Ignore));
}

#[test]
fn edit_after_reply_edits_same_reply() {
    let mut ctx = context();
    let req = sent(on_code_message(&fresh(1, "/py print(1)"), &ctx));
    ctx.record_sent(at(1), &req, at(2));
    let edited = fresh(1, "/py print(2)");
    match on_code_update(&edited, &ctx) {
        Action::Edit { request, reply_id } => {
            assert_eq!(reply_id, 2);
            assert_eq!(request.code, "print(2)");
            assert_eq!(request.prev_session, Some(2));
            ctx.record_edited(&request, at(reply_id));
        }
        _ => panic!("expected an edit"),
    }
    let rerun = sent(on_code_message(&reply(3, 2, ""), &ctx));
    assert_eq!(rerun.code, "print(2)");
}

#[test]
fn edit_without_reply_sends_new() {
    let ctx = context();
    let req = sent(on_code_update(&fresh(1, "/rust fn main(){}"), &ctx));
    assert_eq!(req.language, CodeLanguage::Rust);
    assert_eq!(req.prev_session, None);
    assert!(matches!(on_code_update(&fresh(1, "plain"), &ctx), Action::Ignore));
}

#[test]
fn parse_reports_previous_reply() {
    let mut ctx = context();
    ctx.session.put(CHAT, 1, Session::Code(CodeSession::Replied { reply_id: 9 }));
    let req = parse_code_message(&fresh(1, "/cpp int main(){}"), &ctx).unwrap();
    assert_eq!(req.prev_session, Some(9));
}

#[test]
fn endpoint_appends_identifier() {
    let config = BotConfig::new("http://runner:8080".to_string(), 5);
    assert_eq!(config.endpoint(CodeLanguage::Python), "http://runner:8080/python");
    assert_eq!(config.endpoint(CodeLanguage::Cpp), "http://runner:8080/cpp");
    assert_eq!(config.timeout_secs, 5);
}

#[test]
fn store_overwrites_and_separates_keys() {
    let mut store = SessionStorage::new();
    assert!(store.get(1, 1).is_none());
    store.put(1, 1, Session::Code(CodeSession::Reference { id: 5 }));
    store.put(1, 1, Session::Code(CodeSession::Reference { id: 6 }));
    assert!(matches!(store.get(1, 1), Some(Session::Code(CodeSession::Reference { id: 6 }))));
    store.put(i64::MIN, i64::MAX, Session::Code(CodeSession::Replied { reply_id: 1 }));
    store.put(i64::MAX, i64::MIN, Session::Code(CodeSession::Replied { reply_id: 2 }));
    assert!(matches!(
        store.get(i64::MIN, i64::MAX),
        Some(Session::Code(CodeSession::Replied { reply_id: 1 }))
    ));
    assert!(matches!(
        store.get(i64::MAX, i64::MIN),
        Some(Session::Code(CodeSession::Replied { reply_id: 2 }))
    ));
    assert!(store.get(1, 2).is_none());
    assert!(store.get(2, 1).is_none());
}

#[test]
fn duplicate_keeps_code() {
    let s = Session::Code(CodeSession::Real { language: CodeLanguage::Aheui, code: "밯".to_string() });
    match s.duplicate() {
        Session::Code(CodeSession::Real { language, code }) => {
            assert_eq!(language, CodeLanguage::Aheui);
            assert_eq!(code, "밯");
        }
        _ => panic!("expected real code"),
    }
}
