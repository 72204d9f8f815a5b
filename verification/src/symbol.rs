//! The mathematical model of the host runtime's `Symbol` type: an interned,
//! length-bounded token over the characters `a`-`z`, `A`-`Z`, `0`-`9` and
//! `_`. A symbol is modelled by the sequence of characters it holds.

use vstd::prelude::*;

verus! {

/// The host runtime's execution context, an opaque handle supplied to
/// every operation.
#[verifier::external_type_specification]
#[verifier::external_body]
pub struct ExEnv(soroban_sdk::Env);

/// The host runtime's symbol type, opaque here; `symbol_text` names what
/// a value of it holds.
#[verifier::external_type_specification]
#[verifier::external_body]
pub struct ExSymbol(soroban_sdk::Symbol);

/// The characters a symbol's text holds: a `soroban_sdk::Symbol` is a
/// bounded collection of characters, and this names its contents.
pub uninterp spec fn symbol_text(s: soroban_sdk::Symbol) -> Seq<char>;

/// A character the host runtime accepts in a symbol.
pub open spec fn is_symbol_char(c: char) -> bool {
    c == '_' || ('0' <= c && c <= '9') || ('A' <= c && c <= 'Z') || ('a' <= c && c <= 'z')
}

/// Text the host runtime accepts as a symbol: at most 32 characters, each
/// from the symbol alphabet.
pub open spec fn valid_symbol_text(s: Seq<char>) -> bool {
    s.len() <= 32 && forall|i: int| 0 <= i < s.len() ==> is_symbol_char(s[i])
}

/// Relies on `soroban_sdk::Symbol::new`: it returns the symbol holding
/// exactly the characters of `s`, and panics only when `s` is not valid
/// symbol text, which the precondition rules out.
#[verifier::external_body]
pub(crate) fn symbol_new(env: &soroban_sdk::Env, s: &str) -> (r: soroban_sdk::Symbol)
    requires
        valid_symbol_text(s@),
    ensures
        symbol_text(r) == s@,
{
    soroban_sdk::Symbol::new(env, s)
}

} // verus!
