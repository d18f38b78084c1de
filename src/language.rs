//! The languages that can be submitted, their command words and the
//! identifiers under which an execution backend knows them.
use crate::text::{has_prefix, starts_with};
use vstd::prelude::*;

verus! {

#[derive(Clone, Copy, Debug, PartialEq, Eq, Structural)]
pub enum CodeLanguage {
    Rust,
    Cpp,
    Python,
    Javascript,
    Haskell,
    Aheui,
}

pub open spec fn identifier_of(l: CodeLanguage) -> Seq<char> {
    match l {
        CodeLanguage::Rust => "rust"@,
        CodeLanguage::Cpp => "cpp"@,
        CodeLanguage::Python => "python"@,
        CodeLanguage::Javascript => "javascript"@,
        CodeLanguage::Haskell => "haskell"@,
        CodeLanguage::Aheui => "aheui"@,
    }
}

pub open spec fn command_of(l: CodeLanguage) -> Seq<char> {
    match l {
        CodeLanguage::Rust => "/rust"@,
        CodeLanguage::Cpp => "/cpp"@,
        CodeLanguage::Python => "/py"@,
        CodeLanguage::Javascript => "/js"@,
        CodeLanguage::Haskell => "/hs"@,
        CodeLanguage::Aheui => "/ah"@,
    }
}

/// Whether a language is built by a compiler before it runs.
pub open spec fn compiled(l: CodeLanguage) -> bool {
    match l {
        CodeLanguage::Rust | CodeLanguage::Cpp | CodeLanguage::Haskell => true,
        _ => false,
    }
}

/// The language whose command word begins the text, the commands tried in
/// a fixed order and the first match taken.
pub open spec fn command_language(s: Seq<char>) -> Option<CodeLanguage> {
    if has_prefix(s, command_of(CodeLanguage::Rust)) {
        Some(CodeLanguage::Rust)
    } else if has_prefix(s, command_of(CodeLanguage::Cpp)) {
        Some(CodeLanguage::Cpp)
    } else if has_prefix(s, command_of(CodeLanguage::Python)) {
        Some(CodeLanguage::Python)
    } else if has_prefix(s, command_of(CodeLanguage::Javascript)) {
        Some(CodeLanguage::Javascript)
    } else if has_prefix(s, command_of(CodeLanguage::Haskell)) {
        Some(CodeLanguage::Haskell)
    } else if has_prefix(s, command_of(CodeLanguage::Aheui)) {
        Some(CodeLanguage::Aheui)
    } else {
        None
    }
}

impl CodeLanguage {
    /// The name under which an execution backend knows the language.
    pub fn into_identifier(self) -> (r: &'static str)
        ensures
            r@ == identifier_of(self),
    {
        match self {
            CodeLanguage::Rust => "rust",
            CodeLanguage::Cpp => "cpp",
            CodeLanguage::Python => "python",
            CodeLanguage::Javascript => "javascript",
            CodeLanguage::Haskell => "haskell",
            CodeLanguage::Aheui => "aheui",
        }
    }

    /// The command word that submits code in the language.
    pub fn command(self) -> (r: &'static str)
        ensures
            r@ == command_of(self),
    {
        match self {
            CodeLanguage::Rust => "/rust",
            CodeLanguage::Cpp => "/cpp",
            CodeLanguage::Python => "/py",
            CodeLanguage::Javascript => "/js",
            CodeLanguage::Haskell => "/hs",
            CodeLanguage::Aheui => "/ah",
        }
    }

    pub fn is_compiled(self) -> (r: bool)
        ensures
            r == compiled(self),
    {
        match self {
            CodeLanguage::Rust | CodeLanguage::Cpp | CodeLanguage::Haskell => true,
            _ => false,
        }
    }

    /// The language that a command text asks for, if any.
    pub fn from_command(text: &Vec<char>) -> (r: Option<CodeLanguage>)
        ensures
            r == command_language(text@),
    {
        if starts_with(text, CodeLanguage::Rust.command()) {
            Some(CodeLanguage::Rust)
        } else if starts_with(text, CodeLanguage::Cpp.command()) {
            Some(CodeLanguage::Cpp)
        } else if starts_with(text, CodeLanguage::Python.command()) {
            Some(CodeLanguage::Python)
        } else if starts_with(text, CodeLanguage::Javascript.command()) {
            Some(CodeLanguage::Javascript)
        } else if starts_with(text, CodeLanguage::Haskell.command()) {
            Some(CodeLanguage::Haskell)
        } else if starts_with(text, CodeLanguage::Aheui.command()) {
            Some(CodeLanguage::Aheui)
        } else {
            None
        }
    }
}

} // verus!
