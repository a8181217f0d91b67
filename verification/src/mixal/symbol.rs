//! Symbols: which names are local, and the names under which the assembler
//! keeps them.

use vstd::prelude::*;

use super::ast::Symbol;
use crate::mix::text::{chars_of, push_char};

verus! {

/// What `regex::Regex::new` and `regex::Regex::is_match` make of a pattern
/// and a text: whether the text matches, or `None` where the pattern is no
/// regular expression.
pub uninterp spec fn regex_is_match(pattern: Seq<char>, text: Seq<char>) -> Option<bool>;

/// Compiles `pattern` with `regex::Regex::new` and asks `Regex::is_match`
/// whether `text` matches it somewhere. `None` where the pattern does not
/// compile. The answer depends on the pattern and the text alone.
#[verifier::external_body]
fn pattern_matches(pattern: &str, text: &str) -> (r: Option<bool>)
    ensures
        r == regex_is_match(pattern@, text@),
{
    match regex::Regex::new(pattern) {
        Ok(re) => Some(re.is_match(text)),
        Err(_) => None,
    }
}

/// Whether `name` declares a local symbol: a digit and an `H`.
pub open spec fn spec_is_local_declaration(name: Seq<char>) -> bool {
    regex_is_match("^\\dH$"@, name) == Some(true)
}

/// Whether `name` refers forward to a local symbol: a digit and an `F`.
pub open spec fn spec_is_local_forward_ref(name: Seq<char>) -> bool {
    regex_is_match("^\\dF$"@, name) == Some(true)
}

/// Whether `name` refers back to a local symbol: a digit and a `B`.
pub open spec fn spec_is_local_back_ref(name: Seq<char>) -> bool {
    regex_is_match("^\\dB$"@, name) == Some(true)
}

/// Whether `name` is the name of a local symbol in one of its three forms.
pub open spec fn spec_is_local(name: Seq<char>) -> bool {
    spec_is_local_declaration(name) || spec_is_local_forward_ref(name) || spec_is_local_back_ref(
        name,
    )
}

/// The name under which the assembler keeps a symbol: for a local symbol,
/// `__loc:` and its first character, so that the three forms of one local
/// symbol share a name; for another symbol, its own name.
pub open spec fn spec_internal_name_for(name: Seq<char>, local: bool) -> Seq<char> {
    if local {
        "__loc:"@ + name.take(
            if name.len() > 0 {
                1int
            } else {
                0int
            },
        )
    } else {
        name
    }
}

/// The name under which the assembler keeps the symbol `name`.
pub open spec fn spec_internal_name(name: Seq<char>) -> Seq<char> {
    spec_internal_name_for(name, spec_is_local(name))
}

/// The name under which the assembler keeps a symbol, given whether the
/// symbol is local.
pub fn internal_name_for(name: &str, local: bool) -> (internal: String)
    ensures
        internal@ == spec_internal_name_for(name@, local),
{
    if local {
        let chars = chars_of(name);
        let mut internal = String::from_str("__loc:");
        if chars.len() > 0 {
            push_char(&mut internal, chars[0]);
            assert(internal@ =~= "__loc:"@ + name@.take(1));
        } else {
            assert(internal@ =~= "__loc:"@ + name@.take(0));
        }
        internal
    } else {
        String::from_str(name)
    }
}

impl Symbol {
    /// Whether the symbol declares a local symbol.
    pub fn is_local_declaration(&self) -> (r: bool)
        ensures
            r == spec_is_local_declaration(self.name@),
    {
        match pattern_matches("^\\dH$", self.name.as_str()) {
            Some(found) => found,
            None => false,
        }
    }

    /// Whether the symbol refers forward to a local symbol.
    pub fn is_local_forward_ref(&self) -> (r: bool)
        ensures
            r == spec_is_local_forward_ref(self.name@),
    {
        match pattern_matches("^\\dF$", self.name.as_str()) {
            Some(found) => found,
            None => false,
        }
    }

    /// Whether the symbol refers back to a local symbol.
    pub fn is_local_back_ref(&self) -> (r: bool)
        ensures
            r == spec_is_local_back_ref(self.name@),
    {
        match pattern_matches("^\\dB$", self.name.as_str()) {
            Some(found) => found,
            None => false,
        }
    }

    /// Whether the symbol is local in one of its three forms.
    pub fn is_local(&self) -> (r: bool)
        ensures
            r == spec_is_local(self.name@),
    {
        self.is_local_declaration() || self.is_local_forward_ref() || self.is_local_back_ref()
    }

    /// The name under which the assembler keeps the symbol.
    pub fn internal_name(&self) -> (internal: String)
        ensures
            internal@ == spec_internal_name(self.name@),
    {
        internal_name_for(self.name.as_str(), self.is_local())
    }
}

} // verus!
