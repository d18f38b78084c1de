//! Sessions and the in-memory store that keeps them, keyed by channel and
//! message.
use crate::language::CodeLanguage;
use std::collections::HashMap;
use vstd::prelude::*;

verus! {

broadcast use vstd::std_specs::hash::group_hash_axioms;

/// What is known about one message of the code chain.
pub enum CodeSession {
    /// Code that a user submitted: the end of every chain.
    Real { language: CodeLanguage, code: String },
    /// The real session lives at message `id` of the same channel.
    Reference { id: i64 },
    /// Set on a triggering message: the bot answered it with `reply_id`.
    Replied { reply_id: i64 },
}

pub enum Session {
    Code(CodeSession),
}

/// The model of a session: its code as a sequence of characters.
pub enum SessionModel {
    Real { language: CodeLanguage, code: Seq<char> },
    Reference { id: i64 },
    Replied { reply_id: i64 },
}

impl View for CodeSession {
    type V = SessionModel;

    open spec fn view(&self) -> SessionModel {
        match self {
            CodeSession::Real { language, code } => SessionModel::Real {
                language: *language,
                code: code@,
            },
            CodeSession::Reference { id } => SessionModel::Reference { id: *id },
            CodeSession::Replied { reply_id } => SessionModel::Replied { reply_id: *reply_id },
        }
    }
}

impl View for Session {
    type V = SessionModel;

    open spec fn view(&self) -> SessionModel {
        match self {
            Session::Code(s) => s@,
        }
    }
}

impl CodeSession {
    /// A copy with the same contents.
    pub fn duplicate(&self) -> (r: CodeSession)
        ensures
            r@ == self@,
    {
        match self {
            CodeSession::Real { language, code } => CodeSession::Real {
                language: *language,
                code: code.clone(),
            },
            CodeSession::Reference { id } => CodeSession::Reference { id: *id },
            CodeSession::Replied { reply_id } => CodeSession::Replied { reply_id: *reply_id },
        }
    }
}

impl Session {
    /// A copy with the same contents.
    pub fn duplicate(&self) -> (r: Session)
        ensures
            r@ == self@,
    {
        match self {
            Session::Code(s) => Session::Code(s.duplicate()),
        }
    }
}

pub const MESSAGE_SPAN: i128 = 0x1_0000_0000_0000_0000;

pub const MESSAGE_OFFSET: i128 = 0x8000_0000_0000_0000;

/// One integer for a (channel, message) pair: the channel in the high
/// 64 bits, the message, shifted to be non-negative, in the low ones.
pub open spec fn key_of(chat: i64, message: i64) -> int {
    chat as int * 0x1_0000_0000_0000_0000 + (message as int + 0x8000_0000_0000_0000)
}

proof fn lemma_key_range(chat: i64, message: i64)
    ensures
        i128::MIN <= key_of(chat, message) <= i128::MAX,
{
    let c = chat as int;
    let m = message as int;
    assert(i128::MIN == -0x8000_0000_0000_0000 * 0x1_0000_0000_0000_0000);
    assert(i128::MAX == 0x7fff_ffff_ffff_ffff * 0x1_0000_0000_0000_0000 + 0xffff_ffff_ffff_ffff);
    assert(-0x8000_0000_0000_0000 * 0x1_0000_0000_0000_0000 <= c * 0x1_0000_0000_0000_0000)
        by (nonlinear_arith)
        requires
            -0x8000_0000_0000_0000 <= c,
    ;
    assert(c * 0x1_0000_0000_0000_0000 <= 0x7fff_ffff_ffff_ffff * 0x1_0000_0000_0000_0000)
        by (nonlinear_arith)
        requires
            c <= 0x7fff_ffff_ffff_ffff,
    ;
}

proof fn lemma_key_injective(c1: i64, m1: i64, c2: i64, m2: i64)
    requires
        key_of(c1, m1) == key_of(c2, m2),
    ensures
        c1 == c2,
        m1 == m2,
{
    let d = c1 as int - c2 as int;
    assert(d * 0x1_0000_0000_0000_0000 == m2 as int - m1 as int) by (nonlinear_arith)
        requires
            c1 as int * 0x1_0000_0000_0000_0000 + m1 as int == c2 as int
                * 0x1_0000_0000_0000_0000 + m2 as int,
            d == c1 as int - c2 as int,
    ;
    if d >= 1 {
        assert(d * 0x1_0000_0000_0000_0000 >= 0x1_0000_0000_0000_0000) by (nonlinear_arith)
            requires
                d >= 1,
        ;
    } else if d <= -1 {
        assert(d * 0x1_0000_0000_0000_0000 <= -0x1_0000_0000_0000_0000) by (nonlinear_arith)
            requires
                d <= -1,
        ;
    }
}

fn key(chat: i64, message: i64) -> (r: i128)
    ensures
        r as int == key_of(chat, message),
{
    proof {
        lemma_key_range(chat, message);
    }
    chat as i128 * MESSAGE_SPAN + (message as i128 + MESSAGE_OFFSET)
}

/// Sessions by (channel, message). A `put` overwrites; nothing is removed.
pub struct SessionStorage {
    map: HashMap<i128, Session>,
}

impl View for SessionStorage {
    type V = Map<(i64, i64), SessionModel>;

    closed spec fn view(&self) -> Map<(i64, i64), SessionModel> {
        Map::new(
            |k: (i64, i64)| self.map@.contains_key(key_of(k.0, k.1) as i128),
            |k: (i64, i64)| self.map@[key_of(k.0, k.1) as i128]@,
        )
    }
}

impl SessionStorage {
    pub fn new() -> (r: SessionStorage)
        ensures
            r@ == Map::<(i64, i64), SessionModel>::empty(),
    {
        let r = SessionStorage { map: HashMap::new() };
        assert(r@ =~= Map::<(i64, i64), SessionModel>::empty());
        r
    }

    pub fn get(&self, chat: i64, message: i64) -> (r: Option<&Session>)
        ensures
            match r {
                Some(s) => self@.contains_key((chat, message)) && s@ == self@[(chat, message)],
                None => !self@.contains_key((chat, message)),
            },
    {
        self.map.get(&key(chat, message))
    }

    pub fn put(&mut self, chat: i64, message: i64, value: Session)
        ensures
            final(self)@ == old(self)@.insert((chat, message), value@),
    {
        let k = key(chat, message);
        self.map.insert(k, value);
        proof {
            lemma_key_range(chat, message);
            assert forall|p: (i64, i64)| p != (chat, message) implies key_of(p.0, p.1) as i128
                != k by {
                lemma_key_range(p.0, p.1);
                if key_of(p.0, p.1) as i128 == k {
                    lemma_key_injective(p.0, p.1, chat, message);
                }
            }
        }
        assert(self@ =~= old(self)@.insert((chat, message), value@));
    }
}

} // verus!
