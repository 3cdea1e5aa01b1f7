//! Arguments handed to a model: `key=value` pairs.

use crate::text::{position_of, split_once, trim, trimmed};
use vstd::prelude::*;

verus! {

/// One argument for a model. Neither part starts or ends with whitespace
/// when it comes from [`Argument::from_str`].
#[derive(Clone, Debug)]
pub struct Argument {
    pub key: String,
    pub value: String,
}

impl View for Argument {
    type V = (Seq<char>, Seq<char>);

    open spec fn view(&self) -> (Seq<char>, Seq<char>) {
        (self.key@, self.value@)
    }
}

/// Why a piece of text is no argument.
#[derive(Clone, Copy, Debug, PartialEq, Eq, Structural)]
pub enum ArgumentError {
    /// The text holds no `=`.
    MissingSeparator,
}

impl ArgumentError {
    /// What to tell the operator.
    pub fn message(&self) -> (text: String)
        ensures
            text@ == "Expected a key=value pair"@,
    {
        "Expected a key=value pair".to_owned()
    }
}

/// The key and the value that `text` spells: the text is cut at its first
/// `=` and both sides are trimmed. `None` where the text holds no `=`.
pub open spec fn parsed(text: Seq<char>) -> Option<(Seq<char>, Seq<char>)> {
    if text.contains('=') {
        let cut = position_of(text, '=') as int;
        Some((trimmed(text.take(cut)), trimmed(text.skip(cut + 1))))
    } else {
        None
    }
}

/// The views of a sequence of arguments, in order.
pub open spec fn pairs_of(arguments: Seq<Argument>) -> Seq<(Seq<char>, Seq<char>)> {
    arguments.map_values(|a: Argument| a@)
}

impl core::str::FromStr for Argument {
    type Err = ArgumentError;

    /// Reads one `key=value` token.
    fn from_str(s: &str) -> (r: Result<Self, Self::Err>)
        ensures
            match r {
                Ok(argument) => parsed(s@) == Some(argument@),
                Err(e) => parsed(s@) is None && e == ArgumentError::MissingSeparator,
            },
    {
        match split_once(s, '=') {
            Some((key, value)) => Ok(
                Argument { key: trim(key).to_owned(), value: trim(value).to_owned() },
            ),
            None => Err(ArgumentError::MissingSeparator),
        }
    }
}

} // verus!
