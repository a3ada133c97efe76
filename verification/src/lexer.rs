//! The lexer: turns raw command text into a sequence of typed tokens.
//!
//! Keywords are recognized case-sensitively and only as whole words: a
//! maximal run of identifier characters that equals a keyword becomes that
//! keyword's token, any other run becomes an [`TokenType::Identifier`].
//! Whitespace and control characters produce dedicated token kinds that the
//! caller filters out before interpretation; any other character produces no
//! token at all.

use crate::text::str_eq;
use vstd::prelude::*;
use vstd::string::StrSliceExecFns;
use vstd::string::StringExecFns;

verus! {

/// The kind of one token. A closed tagged union: structural command words,
/// reserved-but-unimplemented command words, identifiers (carrying their
/// text), and the filtered whitespace/control kinds.
#[derive(Clone, Debug, PartialEq)]
pub enum TokenType {
    Create,
    Use,
    Drop,
    Collection,
    Db,
    Dbs,
    Identifier(String),
    Insert,
    Update,
    Delete,
    Find,
    Help,
    List,
    Show,
    LineFeed,
    Space,
    Tab,
    Null,
}

/// Mathematical model of a [`TokenType`]: the identifier text as a
/// character sequence.
pub enum TokenTypeV {
    Create,
    Use,
    Drop,
    Collection,
    Db,
    Dbs,
    Identifier(Seq<char>),
    Insert,
    Update,
    Delete,
    Find,
    Help,
    List,
    Show,
    LineFeed,
    Space,
    Tab,
    Null,
}

impl View for TokenType {
    type V = TokenTypeV;

    open spec fn view(&self) -> TokenTypeV {
        match self {
            TokenType::Create => TokenTypeV::Create,
            TokenType::Use => TokenTypeV::Use,
            TokenType::Drop => TokenTypeV::Drop,
            TokenType::Collection => TokenTypeV::Collection,
            TokenType::Db => TokenTypeV::Db,
            TokenType::Dbs => TokenTypeV::Dbs,
            TokenType::Identifier(s) => TokenTypeV::Identifier(s@),
            TokenType::Insert => TokenTypeV::Insert,
            TokenType::Update => TokenTypeV::Update,
            TokenType::Delete => TokenTypeV::Delete,
            TokenType::Find => TokenTypeV::Find,
            TokenType::Help => TokenTypeV::Help,
            TokenType::List => TokenTypeV::List,
            TokenType::Show => TokenTypeV::Show,
            TokenType::LineFeed => TokenTypeV::LineFeed,
            TokenType::Space => TokenTypeV::Space,
            TokenType::Tab => TokenTypeV::Tab,
            TokenType::Null => TokenTypeV::Null,
        }
    }
}

/// Half-open character range `[start, end)` of a token within its input.
#[derive(Clone, Copy, Debug, PartialEq, Eq, Structural)]
pub struct Span {
    pub start: usize,
    pub end: usize,
}

/// One token: its kind, its text, and where it stands in the input
/// (`line` counts line feeds before the token, `column` counts characters
/// since the last line feed, both starting at 0).
#[derive(Clone, Debug, PartialEq)]
pub struct Token {
    pub line: usize,
    pub column: usize,
    pub token_type: TokenType,
    pub slice: String,
    pub span: Span,
}

/// Mathematical model of a [`Token`].
#[verifier::ext_equal]
pub struct TokenV {
    pub line: int,
    pub column: int,
    pub token_type: TokenTypeV,
    pub slice: Seq<char>,
    pub start: int,
    pub end: int,
}

impl View for Token {
    type V = TokenV;

    open spec fn view(&self) -> TokenV {
        TokenV {
            line: self.line as int,
            column: self.column as int,
            token_type: self.token_type@,
            slice: self.slice@,
            start: self.span.start as int,
            end: self.span.end as int,
        }
    }
}

impl Token {
    pub fn new(line: usize, column: usize, token_type: TokenType, slice: String, span: Span) -> (t:
        Token)
        ensures
            t.line == line,
            t.column == column,
            t.token_type == token_type,
            t.slice == slice,
            t.span == span,
    {
        Token { line, column, token_type, slice, span }
    }
}

impl Default for TokenType {
    /// The placeholder kind: the end-of-input/null token.
    fn default() -> (t: TokenType)
        ensures
            t is Null,
    {
        TokenType::Null
    }
}

impl TokenType {
    /// A copy that Verus knows to be equal (the derived `Clone` carries no
    /// specification).
    pub fn duplicate(&self) -> (t: TokenType)
        ensures
            t == *self,
    {
        match self {
            TokenType::Create => TokenType::Create,
            TokenType::Use => TokenType::Use,
            TokenType::Drop => TokenType::Drop,
            TokenType::Collection => TokenType::Collection,
            TokenType::Db => TokenType::Db,
            TokenType::Dbs => TokenType::Dbs,
            TokenType::Identifier(s) => TokenType::Identifier(s.clone()),
            TokenType::Insert => TokenType::Insert,
            TokenType::Update => TokenType::Update,
            TokenType::Delete => TokenType::Delete,
            TokenType::Find => TokenType::Find,
            TokenType::Help => TokenType::Help,
            TokenType::List => TokenType::List,
            TokenType::Show => TokenType::Show,
            TokenType::LineFeed => TokenType::LineFeed,
            TokenType::Space => TokenType::Space,
            TokenType::Tab => TokenType::Tab,
            TokenType::Null => TokenType::Null,
        }
    }
}

impl Token {
    /// A copy that Verus knows to be equal.
    pub fn duplicate(&self) -> (t: Token)
        ensures
            t == *self,
    {
        Token {
            line: self.line,
            column: self.column,
            token_type: self.token_type.duplicate(),
            slice: self.slice.clone(),
            span: self.span,
        }
    }
}

/// The views of a token vector.
pub open spec fn tokens_view(ts: Seq<Token>) -> Seq<TokenV> {
    ts.map_values(|t: Token| t@)
}

/// Characters that may start an identifier: letters and `_`.
pub open spec fn is_ident_start(c: char) -> bool {
    (97 <= c as u32 && c as u32 <= 122) || (65 <= c as u32 && c as u32 <= 90) || c as u32 == 95
}

/// Characters that may continue an identifier: letters, digits and `_`.
pub open spec fn is_ident_char(c: char) -> bool {
    is_ident_start(c) || (48 <= c as u32 && c as u32 <= 57)
}

fn ident_start(c: char) -> (r: bool)
    ensures
        r == is_ident_start(c),
{
    let u = c as u32;
    (97 <= u && u <= 122) || (65 <= u && u <= 90) || u == 95
}

fn ident_char(c: char) -> (r: bool)
    ensures
        r == is_ident_char(c),
{
    let u = c as u32;
    (97 <= u && u <= 122) || (65 <= u && u <= 90) || u == 95 || (48 <= u && u <= 57)
}

/// End of the maximal run of identifier characters starting at `i`.
pub open spec fn ident_run_end(s: Seq<char>, i: int) -> int
    decreases s.len() - i,
{
    if 0 <= i < s.len() && is_ident_char(s[i]) {
        ident_run_end(s, i + 1)
    } else {
        i
    }
}

pub proof fn lemma_ident_run_end_bounds(s: Seq<char>, i: int)
    requires
        0 <= i <= s.len(),
    ensures
        i <= ident_run_end(s, i) <= s.len(),
    decreases s.len() - i,
{
    if i < s.len() && is_ident_char(s[i]) {
        lemma_ident_run_end_bounds(s, i + 1);
    }
}

/// The token kind of one whole identifier-character run: an exactly matching
/// keyword, or an identifier carrying the run's text.
pub open spec fn word_token_type(w: Seq<char>) -> TokenTypeV {
    if w == "create"@ {
        TokenTypeV::Create
    } else if w == "use"@ {
        TokenTypeV::Use
    } else if w == "drop"@ {
        TokenTypeV::Drop
    } else if w == "collection"@ {
        TokenTypeV::Collection
    } else if w == "db"@ {
        TokenTypeV::Db
    } else if w == "dbs"@ {
        TokenTypeV::Dbs
    } else if w == "insert"@ {
        TokenTypeV::Insert
    } else if w == "update"@ {
        TokenTypeV::Update
    } else if w == "delete"@ {
        TokenTypeV::Delete
    } else if w == "find"@ {
        TokenTypeV::Find
    } else if w == "help"@ {
        TokenTypeV::Help
    } else if w == "list"@ {
        TokenTypeV::List
    } else if w == "show"@ {
        TokenTypeV::Show
    } else {
        TokenTypeV::Identifier(w)
    }
}

fn word_token_type_exec(w: &str) -> (t: TokenType)
    ensures
        t@ == word_token_type(w@),
{
    if str_eq(w, "create") {
        TokenType::Create
    } else if str_eq(w, "use") {
        TokenType::Use
    } else if str_eq(w, "drop") {
        TokenType::Drop
    } else if str_eq(w, "collection") {
        TokenType::Collection
    } else if str_eq(w, "db") {
        TokenType::Db
    } else if str_eq(w, "dbs") {
        TokenType::Dbs
    } else if str_eq(w, "insert") {
        TokenType::Insert
    } else if str_eq(w, "update") {
        TokenType::Update
    } else if str_eq(w, "delete") {
        TokenType::Delete
    } else if str_eq(w, "find") {
        TokenType::Find
    } else if str_eq(w, "help") {
        TokenType::Help
    } else if str_eq(w, "list") {
        TokenType::List
    } else if str_eq(w, "show") {
        TokenType::Show
    } else {
        TokenType::Identifier(String::from_str(w))
    }
}

/// One spec-level token.
pub open spec fn tok(
    line: int,
    column: int,
    token_type: TokenTypeV,
    slice: Seq<char>,
    start: int,
    end: int,
) -> TokenV {
    TokenV { line, column, token_type, slice, start, end }
}

/// The tokens of `s` from position `i` on, with `line`/`col` the position of
/// `s[i]`. Whitespace and control characters become their dedicated kinds,
/// identifier runs become keywords or identifiers, any other character is
/// skipped.
pub open spec fn spec_tokens_from(s: Seq<char>, i: int, line: int, col: int) -> Seq<TokenV>
    decreases s.len() - i,
    via spec_tokens_from_decreases
{
    if !(0 <= i < s.len()) {
        Seq::empty()
    } else {
        let c = s[i];
        if c == '\n' {
            seq![tok(line, col, TokenTypeV::LineFeed, seq![c], i, i + 1)] + spec_tokens_from(
                s,
                i + 1,
                line + 1,
                0,
            )
        } else if c == ' ' {
            seq![tok(line, col, TokenTypeV::Space, seq![c], i, i + 1)] + spec_tokens_from(
                s,
                i + 1,
                line,
                col + 1,
            )
        } else if c == '\t' {
            seq![tok(line, col, TokenTypeV::Tab, seq![c], i, i + 1)] + spec_tokens_from(
                s,
                i + 1,
                line,
                col + 1,
            )
        } else if c == '\0' {
            seq![tok(line, col, TokenTypeV::Null, seq![c], i, i + 1)] + spec_tokens_from(
                s,
                i + 1,
                line,
                col + 1,
            )
        } else if is_ident_start(c) {
            let j = ident_run_end(s, i + 1);
            let w = s.subrange(i, j);
            seq![tok(line, col, word_token_type(w), w, i, j)] + spec_tokens_from(
                s,
                j,
                line,
                col + (j - i),
            )
        } else {
            spec_tokens_from(s, i + 1, line, col + 1)
        }
    }
}

#[via_fn]
proof fn spec_tokens_from_decreases(s: Seq<char>, i: int, line: int, col: int) {
    if 0 <= i < s.len() && is_ident_start(s[i]) {
        lemma_ident_run_end_bounds(s, i + 1);
    }
}

/// All tokens of an input string, in order.
pub open spec fn spec_tokenize(s: Seq<char>) -> Seq<TokenV> {
    spec_tokens_from(s, 0, 0, 0)
}

/// Lexes one whole input string. Re-running on the same string yields the
/// same tokens: the result is a function of the input alone.
pub fn tokenize(input: &str) -> (tokens: Vec<Token>)
    ensures
        tokens_view(tokens@) == spec_tokenize(input@),
{
    let n = input.unicode_len();
    let mut out: Vec<Token> = Vec::new();
    let mut i: usize = 0;
    let mut line: usize = 0;
    let mut col: usize = 0;
    while i < n
        invariant
            n == input@.len(),
            i <= n,
            line <= i,
            col <= i,
            tokens_view(out@) + spec_tokens_from(input@, i as int, line as int, col as int)
                =~= spec_tokenize(input@),
        decreases n - i,
    {
        let ghost prev_out = out@;
        let c = input.get_char(i);
        if c == '\n' {
            let slice = String::from_str(input.substring_char(i, i + 1));
            let t = Token::new(line, col, TokenType::LineFeed, slice, Span { start: i, end: i + 1 });
            proof {
                assert(t@.slice =~= seq![c]);
                assert(tokens_view(prev_out.push(t)) =~= tokens_view(prev_out).push(t@));
            }
            out.push(t);
            i += 1;
            line += 1;
            col = 0;
        } else if c == ' ' {
            let slice = String::from_str(input.substring_char(i, i + 1));
            let t = Token::new(line, col, TokenType::Space, slice, Span { start: i, end: i + 1 });
            proof {
                assert(t@.slice =~= seq![c]);
                assert(tokens_view(prev_out.push(t)) =~= tokens_view(prev_out).push(t@));
            }
            out.push(t);
            i += 1;
            col += 1;
        } else if c == '\t' {
            let slice = String::from_str(input.substring_char(i, i + 1));
            let t = Token::new(line, col, TokenType::Tab, slice, Span { start: i, end: i + 1 });
            proof {
                assert(t@.slice =~= seq![c]);
                assert(tokens_view(prev_out.push(t)) =~= tokens_view(prev_out).push(t@));
            }
            out.push(t);
            i += 1;
            col += 1;
        } else if c == '\0' {
            let slice = String::from_str(input.substring_char(i, i + 1));
            let t = Token::new(line, col, TokenType::Null, slice, Span { start: i, end: i + 1 });
            proof {
                assert(t@.slice =~= seq![c]);
                assert(tokens_view(prev_out.push(t)) =~= tokens_view(prev_out).push(t@));
            }
            out.push(t);
            i += 1;
            col += 1;
        } else if ident_start(c) {
            let mut j: usize = i + 1;
            while j < n && ident_char(input.get_char(j))
                invariant
                    n == input@.len(),
                    i < j <= n,
                    ident_run_end(input@, i + 1) == ident_run_end(input@, j as int),
                decreases n - j,
            {
                j += 1;
            }
            proof {
                assert(ident_run_end(input@, j as int) == j);
            }
            let word = input.substring_char(i, j);
            let token_type = word_token_type_exec(word);
            let slice = String::from_str(word);
            let t = Token::new(line, col, token_type, slice, Span { start: i, end: j });
            proof {
                assert(tokens_view(prev_out.push(t)) =~= tokens_view(prev_out).push(t@));
            }
            out.push(t);
            col = col + (j - i);
            i = j;
        } else {
            i += 1;
            col += 1;
        }
    }
    out
}

} // verus!
