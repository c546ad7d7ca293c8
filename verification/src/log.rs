//! The lines of the log file. Each entry is one line: the level in square
//! brackets, the component in round brackets, an arrow, and the message.

use vstd::prelude::*;

verus! {

/// The text of one log entry.
pub open spec fn entry_text(level: Seq<char>, module: Seq<char>, message: Seq<char>) -> Seq<char> {
    "["@ + level + "] ("@ + module + ") --> "@ + message
}

/// The log entry of the given level.
pub fn entry(level: &str, module: &str, message: &str) -> (line: String)
    ensures
        line@ == entry_text(level@, module@, message@),
{
    let mut line: String = "[".to_owned();
    line.append(level);
    line.append("] (");
    line.append(module);
    line.append(") --> ");
    line.append(message);
    line
}

/// The log entry for an error in `module`.
pub fn error(module: &str, message: &str) -> (line: String)
    ensures
        line@ == entry_text("ERROR"@, module@, message@),
{
    entry("ERROR", module, message)
}

/// The log entry for a warning from `module`.
pub fn warning(module: &str, message: &str) -> (line: String)
    ensures
        line@ == entry_text("WARNING"@, module@, message@),
{
    entry("WARNING", module, message)
}

/// The log entry for a piece of information from `module`.
pub fn info(module: &str, message: &str) -> (line: String)
    ensures
        line@ == entry_text("INFO"@, module@, message@),
{
    entry("INFO", module, message)
}

} // verus!
