//! Process-wide configuration and the state that the dispatcher owns.
use crate::language::{identifier_of, CodeLanguage};
use crate::session::{Session, SessionModel, SessionStorage};
use vstd::prelude::*;

verus! {

pub struct BotConfig {
    /// Base address of the execution service.
    pub code_api: String,
    /// Wall-clock bound on one execution, in seconds.
    pub timeout_secs: u64,
}

impl BotConfig {
    pub fn new(code_api: String, timeout_secs: u64) -> (r: BotConfig)
        ensures
            r.code_api@ == code_api@,
            r.timeout_secs == timeout_secs,
    {
        BotConfig { code_api, timeout_secs }
    }

    /// The address that runs code of one language: the base, a slash, and
    /// the language's identifier.
    pub fn endpoint(&self, language: CodeLanguage) -> (r: String)
        ensures
            r@ == self.code_api@ + "/"@ + identifier_of(language),
    {
        let mut uri = self.code_api.clone();
        uri.append("/");
        uri.append(language.into_identifier());
        uri
    }
}

/// The session store together with the configuration.
pub struct BotContext {
    pub session: SessionStorage,
    pub config: BotConfig,
}

impl BotContext {
    pub fn new(config: BotConfig) -> (r: BotContext)
        ensures
            r.session@ == Map::<(i64, i64), SessionModel>::empty(),
            r.config == config,
    {
        BotContext { session: SessionStorage::new(), config }
    }

    pub fn get_session(&self, chat: i64, message: i64) -> (r: Option<Session>)
        ensures
            match r {
                Some(s) => self.session@.contains_key((chat, message)) && s@ == self.session@[(
                    chat,
                    message,
                )],
                None => !self.session@.contains_key((chat, message)),
            },
    {
        match self.session.get(chat, message) {
            Some(s) => Some(s.duplicate()),
            None => None,
        }
    }
}

} // verus!
