//! The greeting service: two stateless operations over the host runtime's
//! execution context, one echoing a symbol, one producing the fixed
//! greeting symbol.

use vstd::prelude::*;

use crate::symbol::{symbol_new, symbol_text, valid_symbol_text};

verus! {

/// The text of the fixed greeting symbol.
pub open spec fn greeting_text() -> Seq<char> {
    "Hello"@
}

pub struct HelloWorld;

impl HelloWorld {
    /// Returns the given symbol unchanged; the execution context plays no
    /// part in the result.
    pub fn hello(_env: soroban_sdk::Env, to: soroban_sdk::Symbol) -> (r: soroban_sdk::Symbol)
        ensures
            r == to,
    {
        to
    }

    /// Returns the fixed greeting symbol, whose text is "Hello", whatever
    /// execution context is supplied and however often it is called.
    pub fn greeting(env: soroban_sdk::Env) -> (r: soroban_sdk::Symbol)
        ensures
            symbol_text(r) == greeting_text(),
    {
        proof {
            reveal_strlit("Hello");
            assert(valid_symbol_text("Hello"@));
        }
        symbol_new(&env, "Hello")
    }
}

/// Law: `greeting` has no hidden state. Any two of its results carry the
/// same text, so two sequential calls return symbols equal to each other.
pub proof fn lemma_greeting_constant(a: soroban_sdk::Symbol, b: soroban_sdk::Symbol)
    requires
        symbol_text(a) == greeting_text(),
        symbol_text(b) == greeting_text(),
    ensures
        symbol_text(a) == symbol_text(b),
{
}

/// Law: `hello` is deterministic. Two independent calls on equal inputs
/// return equal results.
pub proof fn lemma_hello_deterministic(
    s1: soroban_sdk::Symbol,
    s2: soroban_sdk::Symbol,
    r1: soroban_sdk::Symbol,
    r2: soroban_sdk::Symbol,
)
    requires
        r1 == s1,
        r2 == s2,
        s1 == s2,
    ensures
        r1 == r2,
{
}

} // verus!
