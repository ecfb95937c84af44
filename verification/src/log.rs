//! Structured logging to `~/.pointiv/trace.jsonl`. No permission required.
//!
//! Each function gives the line that the host's `pointiv_log` receives.

use vstd::prelude::*;

verus! {

/// `[LEVEL] message`.
pub open spec fn log_line(level: Seq<char>, msg: Seq<char>) -> Seq<char> {
    "["@ + level + "] "@ + msg
}

/// Law: the logged line is `[`, the level, `] ` and the whole message, in
/// that order: its length is the level's plus the message's plus three, and
/// the message stands, uncut, at its end.
pub proof fn lemma_log_line(level: Seq<char>, msg: Seq<char>)
    ensures
        log_line(level, msg).len() == level.len() + msg.len() + 3,
        log_line(level, msg)[0] == '[',
        log_line(level, msg).subrange(1, level.len() + 1 as int) == level,
        log_line(level, msg)[level.len() + 1 as int] == ']',
        log_line(level, msg)[level.len() + 2 as int] == ' ',
        log_line(level, msg).subrange(level.len() + 3 as int, log_line(level, msg).len() as int) == msg,
{
    reveal_strlit("[");
    reveal_strlit("] ");
    let l = log_line(level, msg);
    assert(l.subrange(1, level.len() + 1 as int) =~= level);
    assert(l.subrange(level.len() + 3 as int, l.len() as int) =~= msg);
}

fn emit(level: &str, msg: &str) -> (line: String)
    ensures
        line@ == log_line(level@, msg@),
{
    let mut line = String::from_str("[");
    line.append(level);
    line.append("] ");
    line.append(msg);
    line
}

/// The line logged at level `INFO`.
pub fn info(msg: &str) -> (line: String)
    ensures
        line@ == log_line("INFO"@, msg@),
{
    emit("INFO", msg)
}

/// The line logged at level `WARN`.
pub fn warn(msg: &str) -> (line: String)
    ensures
        line@ == log_line("WARN"@, msg@),
{
    emit("WARN", msg)
}

/// The line logged at level `ERROR`.
pub fn error(msg: &str) -> (line: String)
    ensures
        line@ == log_line("ERROR"@, msg@),
{
    emit("ERROR", msg)
}

} // verus!
