use codebot::language::CodeLanguage;
use codebot::text::{argument, chars_of, normalize, starts_with, trim};

fn language_of(s: &str) -> Option<CodeLanguage> {
    CodeLanguage::from_command(&chars_of(s))
}

#[test]
fn identifiers_of_every_language() {
    assert_eq!(CodeLanguage::Rust.into_identifier(), "rust");
    assert_eq!(CodeLanguage::Cpp.into_identifier(), "cpp");
    assert_eq!(CodeLanguage::Python.into_identifier(), "python");
    assert_eq!(CodeLanguage::Javascript.into_identifier(), "javascript");
    assert_eq!(CodeLanguage::Haskell.into_identifier(), "haskell");
    assert_eq!(CodeLanguage::Aheui.into_identifier(), "aheui");
}

#[test]
fn commands_pick_languages_by_prefix() {
    assert_eq!(language_of("/rust fn main() {}"), Some(CodeLanguage::Rust));
    assert_eq!(language_of("/cpp int main(){}"), Some(CodeLanguage::Cpp));
    assert_eq!(language_of("/py print(1)"), Some(CodeLanguage::Python));
    assert_eq!(language_of("/python print(1)"), Some(CodeLanguage::Python));
    assert_eq!(language_of("/js 1"), Some(CodeLanguage::Javascript));
    assert_eq!(language_of("/hs main = pure ()"), Some(CodeLanguage::Haskell));
    assert_eq!(language_of("/ah 밯망희"), Some(CodeLanguage::Aheui));
    assert_eq!(language_of("/go main"), None);
    assert_eq!(language_of("hello /py"), None);
    assert_eq!(language_of(""), None);
    assert_eq!(language_of("/p"), None);
}

#[test]
fn only_compiled_languages_compile() {
    assert!(CodeLanguage::Rust.is_compiled());
    assert!(CodeLanguage::Cpp.is_compiled());
    assert!(CodeLanguage::Haskell.is_compiled());
    assert!(!CodeLanguage::Python.is_compiled());
    assert!(!CodeLanguage::Javascript.is_compiled());
    assert!(!CodeLanguage::Aheui.is_compiled());
}

#[test]
fn argument_follows_first_whitespace_run() {
    assert_eq!(argument("/py print(1+1)"), "print(1+1)");
    assert_eq!(argument("/py"), "");
    assert_eq!(argument("/py   \n  x = 1\ny = 2"), "x = 1\ny = 2");
    assert_eq!(argument("/py\u{3000}print(2)"), "print(2)");
    assert_eq!(argument("/py x  "), "x  ");
}

#[test]
fn trim_strips_both_ends() {
    assert_eq!(trim("  2\n"), "2");
    assert_eq!(trim("\t\n "), "");
    assert_eq!(trim(""), "");
    assert_eq!(trim("a b"), "a b");
}

#[test]
fn normalize_rewrites_module_wrapper() {
    assert_eq!(
        normalize("File \"main.py\", line 1, in <module>"),
        "File \"main.py\", line 1, in module"
    );
    assert_eq!(normalize("<module><module>"), "modulemodule");
    assert_eq!(normalize("<<module>>"), "<module>");
    assert_eq!(normalize("<modul"), "<modul");
    assert_eq!(normalize(""), "");
}

#[test]
fn prefix_test_on_chars() {
    let cs = chars_of("/cpp x");
    assert!(starts_with(&cs, "/cpp"));
    assert!(!starts_with(&cs, "/cpp x y"));
    assert!(starts_with(&cs, ""));
}
