//! Free-standing handlers for reserved commands: they leave the state
//! alone and reply with nothing.

use crate::database_manager::Database;
use crate::session::CmdError;
use crate::token_list::TokenList;
use vstd::prelude::*;

verus! {

/// The reserved `DELETE` command: no effect, empty reply.
pub fn f_delete(_token_list: TokenList, _database: &mut Database) -> (r: Result<String, CmdError>)
    ensures
        final(_database)@ == old(_database)@,
        r matches Ok(s) && s@ == Seq::<char>::empty(),
{
    Ok(String::new())
}

/// A free-standing `USE` stand-in: no effect, empty reply.
pub fn f_use(_token_list: TokenList, _database: &mut Database) -> (r: Result<String, CmdError>)
    ensures
        final(_database)@ == old(_database)@,
        r matches Ok(s) && s@ == Seq::<char>::empty(),
{
    Ok(String::new())
}

} // verus!
