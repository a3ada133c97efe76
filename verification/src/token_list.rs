//! The token cursor: a sequential, explicit-advance read position over a
//! token sequence.

use crate::lexer::{Span, Token, TokenType};
use vstd::prelude::*;

verus! {

/// A cursor over an ordered token sequence. `current_token` starts as a
/// placeholder `Null` token; the caller sets it (normally to the first
/// token) before dispatching, and `next` advances it. Advancing past the
/// end leaves `current_token` unchanged rather than resetting it.
#[derive(Clone, Debug, PartialEq)]
pub struct TokenList {
    pub tokens: Vec<Token>,
    pub current_token: Token,
    pub current_index: usize,
}

impl TokenList {
    pub fn new(tokens: Vec<Token>) -> (tl: TokenList)
        ensures
            tl.tokens == tokens,
            tl.current_index == 0,
            tl.current_token@.token_type is Null,
            tl.current_token@.slice.len() == 0,
    {
        let placeholder = Token::new(
            0,
            0,
            TokenType::Null,
            String::new(),
            Span { start: 0, end: 0 },
        );
        TokenList { tokens, current_token: placeholder, current_index: 0 }
    }

    /// Advances the read position by `steps`. The current token changes only
    /// if the new position is in range; a position past the end is a no-op
    /// on `current_token`.
    pub fn next(&mut self, steps: usize)
        requires
            old(self).current_index + steps <= usize::MAX,
        ensures
            final(self).tokens == old(self).tokens,
            final(self).current_index == old(self).current_index + steps,
            final(self).current_index < old(self).tokens@.len() ==> final(self).current_token
                == old(self).tokens@[final(self).current_index as int],
            final(self).current_index >= old(self).tokens@.len() ==> final(self).current_token
                == old(self).current_token,
    {
        self.current_index += steps;

        if self.current_index < self.tokens.len() {
            self.current_token = self.tokens[self.current_index].duplicate();
        }
    }
}

/// The token a cursor reads after being advanced one step at a time to
/// position `k`, in a sequence of length `len >= 1` whose cursor started at
/// position 0 on the first token: positions past the end freeze the cursor
/// on the last token.
pub open spec fn cur_ix(len: int, k: int) -> int {
    if k < len {
        k
    } else {
        len - 1
    }
}

} // verus!
