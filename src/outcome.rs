//! Outcomes of an execution, how a finished process is classified, and how
//! an outcome is rendered into a chat reply.
use crate::language::{compiled, CodeLanguage};
use crate::text::{normalize, normalized, trim, trimmed};
use vstd::prelude::*;

verus! {

/// A failed execution, by cause.
pub enum CodeError {
    /// The toolchain rejected the source; nothing ran.
    Compile { message: String },
    /// The program ran and wrote to its error stream.
    Runtime { message: String },
    /// The program outlived the time allowed and was killed.
    Timeout,
    /// The backend itself failed: resources, spawning, transport.
    Other { message: String },
}

/// Output text on success.
pub type CodeResult = Result<String, CodeError>;

pub enum ErrorModel {
    Compile(Seq<char>),
    Runtime(Seq<char>),
    Timeout,
    Other(Seq<char>),
}

pub type OutcomeModel = Result<Seq<char>, ErrorModel>;

impl View for CodeError {
    type V = ErrorModel;

    open spec fn view(&self) -> ErrorModel {
        match self {
            CodeError::Compile { message } => ErrorModel::Compile(message@),
            CodeError::Runtime { message } => ErrorModel::Runtime(message@),
            CodeError::Timeout => ErrorModel::Timeout,
            CodeError::Other { message } => ErrorModel::Other(message@),
        }
    }
}

pub open spec fn outcome_model(r: CodeResult) -> OutcomeModel {
    match r {
        Ok(out) => Ok(out@),
        Err(e) => Err(e@),
    }
}

/// How a run step ended, as the process runner saw it.
pub enum RunReport {
    /// The process exited; what it wrote to each stream.
    Finished { stdout: String, stderr: String },
    /// The time ran out first and the process was killed.
    TimedOut,
    /// No process could be run or talked to.
    Failed { message: String },
}

/// The outcome of an execution: a compiled language whose compiler wrote
/// diagnostics fails to compile, whatever the run step did; else the run
/// step decides, a non-empty error stream meaning a runtime failure.
pub open spec fn classified(l: CodeLanguage, diagnostics: Seq<char>, report: RunReport) -> OutcomeModel {
    if compiled(l) && diagnostics.len() > 0 {
        Err(ErrorModel::Compile(diagnostics))
    } else {
        match report {
            RunReport::Finished { stdout, stderr } => if stderr@.len() > 0 {
                Err(ErrorModel::Runtime(trimmed(stderr@)))
            } else {
                Ok(trimmed(stdout@))
            },
            RunReport::TimedOut => Err(ErrorModel::Timeout),
            RunReport::Failed { message } => Err(ErrorModel::Other(message@)),
        }
    }
}

pub fn classify(language: CodeLanguage, diagnostics: &str, report: &RunReport) -> (r: CodeResult)
    ensures
        outcome_model(r) == classified(language, diagnostics@, *report),
{
    if language.is_compiled() && !diagnostics.is_empty() {
        return Err(CodeError::Compile { message: String::from_str(diagnostics) });
    }
    match report {
        RunReport::Finished { stdout, stderr } => {
            if !stderr.as_str().is_empty() {
                Err(CodeError::Runtime { message: trim(stderr.as_str()) })
            } else {
                Ok(trim(stdout.as_str()))
            }
        },
        RunReport::TimedOut => Err(CodeError::Timeout),
        RunReport::Failed { message } => Err(CodeError::Other { message: message.clone() }),
    }
}

/// A compile failure is reported only for a language that has a compile step.
pub proof fn compile_failure_needs_compiler(l: CodeLanguage, diagnostics: Seq<char>, report: RunReport)
    ensures
        classified(l, diagnostics, report) matches Err(ErrorModel::Compile(_)) ==> compiled(l),
{
}

#[derive(Clone, Copy, Debug, PartialEq, Eq, Structural)]
pub enum ParseMode {
    Plain,
    Markdown,
    Html,
}

/// A message to send or to put in place of an earlier one.
pub struct Reply {
    pub text: String,
    pub mode: ParseMode,
}

pub open spec fn rendered_text(o: OutcomeModel) -> Seq<char> {
    match o {
        Ok(out) => if out.len() == 0 {
            "No output."@
        } else {
            "`"@ + out + "`"@
        },
        Err(ErrorModel::Compile(e)) => "<b>Compile Error</b>\n<pre>"@ + e + "</pre>"@,
        Err(ErrorModel::Runtime(e)) => "<b>Runtime Error</b>\n"@ + normalized(e),
        Err(ErrorModel::Other(e)) => "<b>Environmental Error</b>\n"@ + e,
        Err(ErrorModel::Timeout) => "_Timed out._"@,
    }
}

pub open spec fn rendered_mode(o: OutcomeModel) -> ParseMode {
    match o {
        Ok(out) => if out.len() == 0 {
            ParseMode::Plain
        } else {
            ParseMode::Markdown
        },
        Err(ErrorModel::Timeout) => ParseMode::Markdown,
        Err(_) => ParseMode::Html,
    }
}

/// The reply that shows an outcome.
pub fn render(result: &CodeResult) -> (r: Reply)
    ensures
        r.text@ == rendered_text(outcome_model(*result)),
        r.mode == rendered_mode(outcome_model(*result)),
{
    match result {
        Ok(output) => {
            if output.as_str().is_empty() {
                Reply { text: String::from_str("No output."), mode: ParseMode::Plain }
            } else {
                let mut text = String::from_str("`");
                text.append(output.as_str());
                text.append("`");
                Reply { text, mode: ParseMode::Markdown }
            }
        },
        Err(CodeError::Compile { message }) => {
            let mut text = String::from_str("<b>Compile Error</b>\n<pre>");
            text.append(message.as_str());
            text.append("</pre>");
            Reply { text, mode: ParseMode::Html }
        },
        Err(CodeError::Runtime { message }) => {
            let mut text = String::from_str("<b>Runtime Error</b>\n");
            let body = normalize(message.as_str());
            text.append(body.as_str());
            Reply { text, mode: ParseMode::Html }
        },
        Err(CodeError::Other { message }) => {
            let mut text = String::from_str("<b>Environmental Error</b>\n");
            text.append(message.as_str());
            Reply { text, mode: ParseMode::Html }
        },
        Err(CodeError::Timeout) => Reply {
            text: String::from_str("_Timed out._"),
            mode: ParseMode::Markdown,
        },
    }
}

} // verus!
