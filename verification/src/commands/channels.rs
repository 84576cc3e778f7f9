//! `/channel add`, `/channel remove` and `/channel list`: the channels whose
//! messages the bot keeps for a limited time only.
//!
//! A channel is stored under its key, the decimal text of its identifier.

use vstd::prelude::*;
use vstd::string::*;
use crate::decimal::{nat_decimal, u64_text};
use crate::reply::{Reply, ephemeral};

verus! {

/// The key under which a channel, or a message, is stored: the decimal text
/// of its identifier.
pub open spec fn id_key(id: u64) -> Seq<char> {
    nat_decimal(id as nat)
}

/// The key of the channel `channel`.
pub fn channel_key(channel: u64) -> (r: String)
    ensures
        r@ == id_key(channel),
{
    u64_text(channel)
}

/// The name by which a reply mentions a channel: the one that the chat
/// service gave, or else the channel's key.
pub open spec fn shown_name(channel: u64, fetched_name: Option<Seq<char>>) -> Seq<char> {
    match fetched_name {
        Some(name) => name,
        None => id_key(channel),
    }
}

pub open spec fn string_view(s: Option<String>) -> Option<Seq<char>> {
    match s {
        Some(s) => Some(s@),
        None => None,
    }
}

/// The name by which a reply mentions `channel`, given what the chat service
/// answered when asked for its name (`None` where it failed).
pub fn display_name(channel: u64, fetched_name: Option<String>) -> (r: String)
    ensures
        r@ == shown_name(channel, string_view(fetched_name)),
        fetched_name matches Some(name) ==> r == name,
        fetched_name is None ==> r@ == id_key(channel),
{
    match fetched_name {
        Some(name) => name,
        None => channel_key(channel),
    }
}

pub open spec fn added_text(name: Seq<char>) -> Seq<char> {
    "Channel "@ + name + " has been added."@
}

pub open spec fn removed_text(name: Seq<char>) -> Seq<char> {
    "Channel "@ + name + " has been removed."@
}

/// `/channel add`, once the channel's key is stored: the reply that names
/// the channel.
pub fn add(channel: u64, fetched_name: Option<String>) -> (r: Reply)
    ensures
        r.content@ == added_text(shown_name(channel, string_view(fetched_name))),
        fetched_name matches Some(name) ==> r.content@ == "Channel "@ + name@ + " has been added."@,
        fetched_name is None ==> r.content@ == "Channel "@ + id_key(channel) + " has been added."@,
        r.ephemeral,
{
    let name = display_name(channel, fetched_name);
    let mut text = String::from_str("Channel ");
    text.append(name.as_str());
    text.append(" has been added.");
    ephemeral(text)
}

/// What `/channel remove` does once the store was asked for the channel.
pub enum RemoveStep<E> {
    /// The channel is stored under this key: delete it, then reply with `removed`.
    Delete(String),
    /// The channel is not stored: reply, and stop.
    NotFound(Reply),
    /// The store failed: reply, then end the command with the store's error.
    Failed(Reply, E),
}

/// `/channel remove`, given what the store answered when asked for the
/// channel: the key of the stored channel, `None` where it holds none, or its
/// error.
pub fn remove<E>(lookup: Result<Option<String>, E>) -> (r: RemoveStep<E>)
    ensures
        lookup matches Ok(Some(key)) ==> r == RemoveStep::<E>::Delete(key),
        lookup matches Ok(None) ==> (r matches RemoveStep::NotFound(reply) && reply.content@
            == "Channel not found."@ && reply.ephemeral),
        lookup matches Err(e) ==> (r matches RemoveStep::Failed(reply, e2) && e2 == e
            && reply.content@ == "Failed to remove channel."@ && reply.ephemeral),
{
    match lookup {
        Ok(Some(key)) => RemoveStep::Delete(key),
        Ok(None) => RemoveStep::NotFound(ephemeral(String::from_str("Channel not found."))),
        Err(e) => RemoveStep::Failed(ephemeral(String::from_str("Failed to remove channel.")), e),
    }
}

/// `/channel remove`, once the channel is deleted: the reply that names it.
pub fn removed(channel: u64, fetched_name: Option<String>) -> (r: Reply)
    ensures
        r.content@ == removed_text(shown_name(channel, string_view(fetched_name))),
        fetched_name matches Some(name) ==> r.content@ == "Channel "@ + name@ + " has been removed."@,
        fetched_name is None ==> r.content@ == "Channel "@ + id_key(channel) + " has been removed."@,
        r.ephemeral,
{
    let name = display_name(channel, fetched_name);
    let mut text = String::from_str("Channel ");
    text.append(name.as_str());
    text.append(" has been removed.");
    ephemeral(text)
}

/// How a channel is mentioned in a message: `<#` and its key and `>`.
pub open spec fn mention(key: Seq<char>) -> Seq<char> {
    "<#"@ + key + ">"@
}

/// The items one after the other, with `sep` between two neighbours.
pub open spec fn join(items: Seq<Seq<char>>, sep: Seq<char>) -> Seq<char>
    decreases items.len(),
{
    if items.len() == 0 {
        Seq::empty()
    } else if items.len() == 1 {
        items[0]
    } else {
        join(items.drop_last(), sep) + sep + items.last()
    }
}

pub open spec fn mentions(keys: Seq<Seq<char>>) -> Seq<Seq<char>> {
    keys.map_values(|key: Seq<char>| mention(key))
}

/// The answer to `/channel list` for the stored channel keys: a bulleted
/// line that mentions each of them, in order, or a fixed sentence where there
/// are none.
pub open spec fn channel_list_text(keys: Seq<Seq<char>>) -> Seq<char> {
    if keys.len() == 0 {
        "No channels are currently being listened to."@
    } else {
        "- "@ + join(mentions(keys), "\n- "@)
    }
}

pub open spec fn string_views(v: Seq<String>) -> Seq<Seq<char>> {
    v.map_values(|s: String| s@)
}

/// `/channel list`, given the keys of the stored channels.
pub fn list(keys: &Vec<String>) -> (r: Reply)
    ensures
        r.content@ == channel_list_text(string_views(keys@)),
        r.ephemeral,
{
    let ghost views = string_views(keys@);
    if keys.len() == 0 {
        return ephemeral(String::from_str("No channels are currently being listened to."));
    }
    let mut text = String::from_str("- ");
    let n = keys.len();
    for i in 0..n
        invariant
            n == keys.len(),
            views == string_views(keys@),
            text@ == "- "@ + join(mentions(views.take(i as int)), "\n- "@),
    {
        let ghost before = text@;
        if i > 0 {
            text.append("\n- ");
        }
        text.append("<#");
        text.append(keys[i].as_str());
        text.append(">");
        proof {
            let prev = mentions(views.take(i as int));
            let next = mentions(views.take(i + 1));
            assert(next.drop_last() =~= prev);
            assert(next.last() == mention(keys@[i as int]@));
            if i == 0 {
                assert(next.len() == 1);
                assert(text@ =~= "- "@ + join(next, "\n- "@));
            } else {
                assert(text@ =~= "- "@ + join(next, "\n- "@));
            }
        }
    }
    assert(views.take(n as int) =~= views);
    ephemeral(text)
}

/// A reply names a channel by the name that the chat service gave, in full,
/// and by its key only where the service gave none.
pub proof fn lemma_shown_name(channel: u64, fetched_name: Option<String>)
    ensures
        fetched_name matches Some(name) ==> shown_name(channel, string_view(fetched_name)) == name@,
        fetched_name is None ==> shown_name(channel, string_view(fetched_name)) == id_key(channel),
{
}

/// The keys' views are the stored strings, one for one and in order.
pub proof fn lemma_string_views(v: Seq<String>)
    ensures
        string_views(v).len() == v.len(),
        forall|i: int| 0 <= i < v.len() ==> #[trigger] string_views(v)[i] == v[i]@,
{
}

/// The channel list has one line per stored key, in order (and a fixed
/// sentence where no channel is stored): a single key
/// gives the line `- <#key>`, and one more key adds the line `- <#key>`
/// after the lines of the others.
pub proof fn lemma_channel_list_lines(keys: Seq<Seq<char>>, key: Seq<char>)
    ensures
        channel_list_text(Seq::empty()) == "No channels are currently being listened to."@,
        channel_list_text(seq![key]) == "- "@ + "<#"@ + key + ">"@,
        keys.len() >= 1 ==> channel_list_text(keys.push(key)) == channel_list_text(keys) + "\n- "@
            + "<#"@ + key + ">"@,
{
    let single = mentions(seq![key]);
    assert(single.len() == 1);
    assert(single[0] == mention(key));
    assert(channel_list_text(seq![key]) =~= "- "@ + "<#"@ + key + ">"@);
    if keys.len() >= 1 {
        let longer = mentions(keys.push(key));
        assert(longer.drop_last() =~= mentions(keys));
        assert(longer.last() == mention(key));
        assert(channel_list_text(keys.push(key)) =~= channel_list_text(keys) + "\n- "@ + "<#"@ + key
            + ">"@);
    }
}

} // verus!
