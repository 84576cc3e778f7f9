//! What the bot answers to a command.

use vstd::prelude::*;

verus! {

/// A reply to a slash command: its text, and whether only the user who ran
/// the command sees it.
pub struct Reply {
    pub content: String,
    pub ephemeral: bool,
}

/// A reply that only the user who ran the command sees; all of the bot's
/// replies are of this kind.
pub fn ephemeral(content: String) -> (r: Reply)
    ensures
        r.content == content,
        r.ephemeral,
{
    Reply { content, ephemeral: true }
}

} // verus!
