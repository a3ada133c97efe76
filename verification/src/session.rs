//! The session step: what one inbound command does to a session's snapshot
//! of the shared state.
//!
//! The surrounding server holds one [`Database`] value behind a
//! readers-writer lock, shared by every open client stream. For each
//! inbound command it clones the value under a read guard, runs
//! [`session_step`] off-lock, applies the returned directory operations to
//! the real store, and — when the operations succeeded and the result
//! differs from a fresh read of the shared value — replaces the shared
//! value wholesale ([`should_commit`]). Two commands racing against the
//! same prior state can so lose one's in-memory effect (last writer wins);
//! the directory operations of both still happen.

use crate::clock::now_local_timestamp;
use crate::database_manager::Database;
use crate::lexer::{Token, TokenTypeV, TokenV, spec_tokenize, tokenize, tokens_view};
use crate::semantics::{DatabaseV, spec_process};
use crate::store::{FsOp, FsOpV, Store, ops_view};
use crate::token_list::TokenList;
use vstd::prelude::*;
use vstd::string::StrSliceExecFns;
use vstd::string::StringExecFns;

verus! {

/// The one call-level failure: a command with no tokens at all. Every other
/// condition becomes a reply text, not an error.
#[derive(Clone, Copy, Debug, PartialEq, Eq, Structural)]
pub enum CmdError {
    EmptyCommand,
}

impl CmdError {
    /// The human-readable text of this error.
    pub fn message(&self) -> (s: String)
        ensures
            s@ == "empty command"@,
    {
        String::from_str("empty command")
    }
}

/// Whether a token kind is filtered out before interpretation.
pub open spec fn is_control(t: TokenTypeV) -> bool {
    ||| t is Null
    ||| t is Space
    ||| t is LineFeed
    ||| t is Tab
}

/// The tokens from index `i` on with the whitespace/control kinds removed.
pub open spec fn filter_control_from(toks: Seq<TokenV>, i: int) -> Seq<TokenV>
    decreases toks.len() - i,
{
    if !(0 <= i < toks.len()) {
        Seq::empty()
    } else {
        let rest = filter_control_from(toks, i + 1);
        if is_control(toks[i].token_type) {
            rest
        } else {
            seq![toks[i]] + rest
        }
    }
}

pub open spec fn spec_filter_control(toks: Seq<TokenV>) -> Seq<TokenV> {
    filter_control_from(toks, 0)
}

/// The tokens one command string is interpreted by: its lexer output with
/// whitespace and control tokens removed.
pub open spec fn spec_command_tokens(input: Seq<char>) -> Seq<TokenV> {
    spec_filter_control(spec_tokenize(input))
}

/// Removes the whitespace/control tokens.
fn filter_tokens(tokens: &Vec<Token>) -> (r: Vec<Token>)
    ensures
        tokens_view(r@) == spec_filter_control(tokens_view(tokens@)),
{
    let ghost toks = tokens_view(tokens@);
    let mut kept: Vec<Token> = Vec::new();
    let len = tokens.len();
    let mut i: usize = 0;
    while i < len
        invariant
            len == tokens@.len(),
            toks == tokens_view(tokens@),
            toks.len() == len,
            i <= len,
            tokens_view(kept@) + filter_control_from(toks, i as int) == spec_filter_control(toks),
        decreases len - i,
    {
        let ghost prev = kept@;
        let keep = match &tokens[i].token_type {
            crate::lexer::TokenType::Null => false,
            crate::lexer::TokenType::Space => false,
            crate::lexer::TokenType::LineFeed => false,
            crate::lexer::TokenType::Tab => false,
            _ => true,
        };
        if keep {
            kept.push(tokens[i].duplicate());
            proof {
                assert(tokens_view(kept@) =~= tokens_view(prev).push(toks[i as int]));
                assert(tokens_view(prev).push(toks[i as int]) + filter_control_from(toks, i + 1)
                    =~= tokens_view(prev) + (seq![toks[i as int]] + filter_control_from(
                    toks,
                    i + 1,
                )));
            }
        }
        i += 1;
    }
    proof {
        assert(tokens_view(kept@) + filter_control_from(toks, len as int) =~= tokens_view(kept@));
    }
    kept
}

/// Whether these results are what lexing `input` and interpreting its
/// tokens against `db0` and `store` yields, when new collections are
/// stamped `now`.
pub open spec fn lex_matches(
    input: Seq<char>,
    db0: DatabaseV,
    store: crate::store::StoreV,
    now: Seq<char>,
    output: Seq<char>,
    exit: bool,
    db1: DatabaseV,
    ops: Seq<FsOpV>,
) -> bool {
    let toks = spec_command_tokens(input);
    let pr = spec_process(db0, store, toks, now);
    &&& output == pr.1.output
    &&& exit == pr.1.exit
    &&& db1 == pr.0
    &&& ops == pr.1.ops
}

/// Lexes one command string, filters the whitespace tokens, and interprets
/// the command against the given state and store snapshot. A command with
/// no tokens is refused with [`CmdError::EmptyCommand`] and changes
/// nothing. The collection timestamp comes from the clock, so the result is
/// pinned only up to that stamp.
pub fn lex_input(input: &str, database: Database, store: &Store) -> (r: Result<
    (String, bool, Database, Vec<FsOp>),
    CmdError,
>)
    ensures
        spec_command_tokens(input@).len() == 0 <==> (r matches Err(CmdError::EmptyCommand)),
        r matches Ok(t) ==> exists|now: Seq<char>|
            #[trigger] lex_matches(input@, database@, store@, now, t.0@, t.1, t.2@, ops_view(t.3@)),
{
    let tokens = tokenize(input);
    let filtered = filter_tokens(&tokens);
    if filtered.is_empty() {
        proof {
            assert(spec_command_tokens(input@).len() == 0);
        }
        return Err(CmdError::EmptyCommand);
    }
    let mut token_list = TokenList::new(filtered);
    let first = token_list.tokens[0].duplicate();
    token_list.current_token = first;
    let now = now_local_timestamp();
    let ghost now_v = now@;
    let ghost db0 = database@;
    let mut db = database;
    let outcome = db.process_tokens(token_list, store, now.as_str());
    let r: Result<(String, bool, Database, Vec<FsOp>), CmdError> = Ok(
        (outcome.output, outcome.exit, db, outcome.ops),
    );
    proof {
        let t = r->Ok_0;
        assert(lex_matches(input@, db0, store@, now_v, t.0@, t.1, t.2@, ops_view(t.3@)));
    }
    r
}

/// As [`lex_matches`], with the (always false) exit flag dropped: the
/// session layer ignores it.
pub open spec fn step_matches(
    input: Seq<char>,
    db0: DatabaseV,
    store: crate::store::StoreV,
    now: Seq<char>,
    output: Seq<char>,
    db1: DatabaseV,
    ops: Seq<FsOpV>,
) -> bool {
    let toks = spec_command_tokens(input);
    let pr = spec_process(db0, store, toks, now);
    &&& output == pr.1.output
    &&& db1 == pr.0
    &&& ops == pr.1.ops
}

/// The reply a session sends when a command fails at call level rather
/// than producing a handler message.
pub open spec fn msg_exec_error(m: Seq<char>) -> Seq<char> {
    "Error executing command: "@ + m + "\n"@
}

/// One session step, run off-lock on a clone of the shared state: lex and
/// interpret the command against the given snapshot, yielding the reply
/// text, the state to commit, and the directory operations to apply. An
/// empty command changes nothing and replies with an error marker.
pub fn session_step(database: &Database, store: &Store, input: &str) -> (r: (
    String,
    Database,
    Vec<FsOp>,
))
    ensures
        spec_command_tokens(input@).len() == 0 ==> r.0@ == msg_exec_error("empty command"@) && r.1@
            == database@ && ops_view(r.2@) == Seq::<FsOpV>::empty(),
        spec_command_tokens(input@).len() > 0 ==> exists|now: Seq<char>|
            #[trigger] step_matches(input@, database@, store@, now, r.0@, r.1@, ops_view(r.2@)),
{
    let snapshot = database.duplicate();
    let res = lex_input(input, snapshot, store);
    match res {
        Ok((output, _exit, new_db, ops)) => {
            let r = (output, new_db, ops);
            proof {
                let now = choose|now: Seq<char>|
                    lex_matches(
                        input@,
                        database@,
                        store@,
                        now,
                        res->Ok_0.0@,
                        res->Ok_0.1,
                        res->Ok_0.2@,
                        ops_view(res->Ok_0.3@),
                    );
                assert(step_matches(input@, database@, store@, now, r.0@, r.1@, ops_view(r.2@)));
            }
            r
        },
        Err(e) => {
            let m = e.message();
            let mut output = String::from_str("Error executing command: ");
            output.append(m.as_str());
            output.append("\n");
            (output, database.duplicate(), Vec::new())
        },
    }
}

/// Whether the session must write its mutated clone back: exactly when it
/// differs from the current shared value (replacing an equal value would
/// change nothing).
pub fn should_commit(current: &Database, candidate: &Database) -> (r: bool)
    ensures
        r == (current@ != candidate@),
{
    !current.same_state(candidate)
}

} // verus!
