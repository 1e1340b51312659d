//! Command handling: what a message that addresses the bot asks for, what it
//! does to the subscriptions, and the bot's reply.
//!
//! A command is a mention of the bot, one space, and the command's text:
//! `help`, `list`, `add` and a pattern, `remove` and a pattern, `save`,
//! `syntax`, `source` or `author`. Anything else is answered with the usage text.

use crate::grep::Grep;
use crate::json::{json_text, to_json};
use crate::model::Message;
use crate::pattern::rejection;
use crate::store::{holds, inserts, pairs, reloadable, removed, GrepSet, InsertError};
use crate::text::{after, begins, starts};
use vstd::prelude::*;

verus! {

/// The reply to `source`.
pub const SOURCE: &'static str = "https://github.com/TumblrCommunity/grepbot";

/// The reply to `author`.
pub const AUTHOR: &'static str = "talk to artemis (https://github.com/ashfordneil)";

/// What a command asks for.
#[derive(Clone, Copy, Debug, PartialEq, Eq)]
pub enum Command {
    /// The help text.
    Help,
    /// The sender's subscriptions.
    List,
    /// A new subscription of the sender.
    Add,
    /// The end of one of the sender's subscriptions.
    Remove,
    /// A snapshot of all subscriptions.
    Save,
    /// The text on pattern syntax.
    Syntax,
    /// Where the bot's source is kept.
    Source,
    /// Whom to ask about the bot.
    Author,
    /// Anything else: the usage text.
    Usage,
}

/// The three texts that replies quote in full. Their wording is the caller's.
pub struct Docs {
    /// Sent in reply to what is no command.
    pub usage: String,
    /// Sent in reply to `help`.
    pub help: String,
    /// Sent in reply to `syntax`.
    pub syntax: String,
}

/// `at` is where the first space of `s` stands.
pub open spec fn first_space(s: Seq<char>, at: int) -> bool {
    &&& 0 <= at < s.len()
    &&& s[at] == ' '
    &&& forall|j: int| 0 <= j < at ==> s[j] != ' '
}

/// The text of the command in a message: what follows the first space, where
/// the message begins with a mention. `None` where the message has no space or
/// begins otherwise.
pub open spec fn addressed(content: Seq<char>) -> Option<Seq<char>> {
    if exists|at: int| first_space(content, at) {
        let at = choose|at: int| first_space(content, at);
        if starts(content.subrange(0, at), "<@"@) {
            Some(content.subrange(at + 1, content.len() as int))
        } else {
            None
        }
    } else {
        None
    }
}

/// What the text of a command asks for, and the pattern text that it names
/// (empty but for `add` and `remove`).
pub open spec fn meaning(text: Seq<char>) -> (Command, Seq<char>) {
    if text == "help"@ {
        (Command::Help, Seq::empty())
    } else if text == "list"@ {
        (Command::List, Seq::empty())
    } else if starts(text, "add "@) {
        (Command::Add, text.subrange("add "@.len() as int, text.len() as int))
    } else if starts(text, "remove "@) {
        (Command::Remove, text.subrange("remove "@.len() as int, text.len() as int))
    } else if text == "save"@ {
        (Command::Save, Seq::empty())
    } else if text == "syntax"@ {
        (Command::Syntax, Seq::empty())
    } else if text == "source"@ {
        (Command::Source, Seq::empty())
    } else if text == "author"@ {
        (Command::Author, Seq::empty())
    } else {
        (Command::Usage, Seq::empty())
    }
}

/// What a message that addresses the bot asks for.
pub open spec fn parsed(content: Seq<char>) -> (Command, Seq<char>) {
    match addressed(content) {
        Some(text) => meaning(text),
        None => (Command::Usage, Seq::empty()),
    }
}

/// The subscriptions of `owner` in `s`, each on a line of its own.
pub open spec fn listing(s: Seq<Grep>, owner: u64) -> Seq<char>
    decreases s.len(),
{
    if s.len() == 0 {
        Seq::empty()
    } else if s.last().1 == owner {
        listing(s.drop_last(), owner) + seq!['\n'] + s.last().pattern()
    } else {
        listing(s.drop_last(), owner)
    }
}

/// Whether `owner` has a subscription in `s`.
pub open spec fn owns_any(s: Seq<Grep>, owner: u64) -> bool {
    exists|i: int| 0 <= i < s.len() && (#[trigger] s[i]).1 == owner
}

/// The reply to `list`.
pub open spec fn list_reply(s: Seq<Grep>, owner: u64) -> Seq<char> {
    if owns_any(s, owner) {
        listing(s, owner)
    } else {
        "you have no greps"@
    }
}

/// The reply to `add`, given how the insertion ended.
pub open spec fn add_reply_text(outcome: Result<(), InsertError>) -> Seq<char> {
    match outcome {
        Ok(_) => "Regex added"@,
        Err(InsertError::DuplicateSubscription) => "Regex already exists"@,
        Err(InsertError::InvalidPattern(message)) => "Invalid regex. "@ + message@,
    }
}

/// The reply to `remove`, given whether the subscription was there.
pub open spec fn remove_reply_text(pattern: Seq<char>, found: bool) -> Seq<char> {
    if found {
        "Regex "@ + pattern + " removed"@
    } else {
        "Regex "@ + pattern + " was not found"@
    }
}

/// The reply to `save`, given the snapshot as JSON text; none where there is no snapshot.
pub open spec fn save_reply_text(json: Option<Seq<char>>) -> Option<Seq<char>> {
    match json {
        Some(text) => Some("`"@ + text + "`"@),
        None => None,
    }
}

/// The characters of a reply, if there is one.
pub open spec fn text_of(reply: Option<String>) -> Option<Seq<char>> {
    match reply {
        Some(text) => Some(text@),
        None => None,
    }
}

/// What `add` does: `before` and `after` are the subscriptions before and
/// after `owner` asked for `pattern`, `reply` is the answer.
pub open spec fn adds(
    before: Seq<Grep>,
    after: Seq<Grep>,
    owner: u64,
    pattern: Seq<char>,
    reply: Seq<char>,
) -> bool {
    match rejection(pattern) {
        Some(message) => after == before && reply == "Invalid regex. "@ + message,
        None => inserts(before, after, owner, pattern) && reply == (if holds(before, pattern, owner) {
            "Regex already exists"@
        } else {
            "Regex added"@
        }),
    }
}

/// What a command does: `before` and `after` are the subscriptions before and
/// after `owner` sent it, `reply` is the answer, if there is one.
pub open spec fn answers(
    command: (Command, Seq<char>),
    owner: u64,
    before: Seq<Grep>,
    after: Seq<Grep>,
    docs: Docs,
    reply: Option<Seq<char>>,
) -> bool {
    match command.0 {
        Command::Help => after == before && reply == Some(docs.help@),
        Command::List => after == before && reply == Some(list_reply(before, owner)),
        Command::Add => reply is Some && adds(before, after, owner, command.1, reply->0),
        Command::Remove => after == removed(before, command.1, owner) && reply == Some(
            remove_reply_text(command.1, holds(before, command.1, owner)),
        ),
        Command::Save => after == before && reply == save_reply_text(json_text(pairs(before))),
        Command::Syntax => after == before && reply == Some(docs.syntax@),
        Command::Source => after == before && reply == Some(SOURCE@),
        Command::Author => after == before && reply == Some(AUTHOR@),
        Command::Usage => after == before && reply == Some(docs.usage@),
    }
}

/// Reads a message that addresses the bot: what it asks for, and the pattern
/// text that it names.
pub fn parse<'a>(content: &'a str) -> (res: (Command, &'a str))
    ensures
        res.0 == parsed(content@).0,
        res.1@ == parsed(content@).1,
{
    proof {
        reveal_strlit("");
        assert(""@ =~= Seq::<char>::empty());
    }
    let len = content.unicode_len();
    let mut at: usize = 0;
    while at < len && content.get_char(at) != ' '
        invariant
            at <= len,
            len == content@.len(),
            forall|j: int| 0 <= j < at ==> content@[j] != ' ',
        decreases len - at,
    {
        at += 1;
    }
    if at >= len {
        proof {
            assert(!exists|i: int| first_space(content@, i));
        }
        return (Command::Usage, "");
    }
    proof {
        assert(first_space(content@, at as int));
        let chosen = choose|i: int| first_space(content@, i);
        assert(chosen == at);
    }
    let mention = content.substring_char(0, at);
    if !begins(mention, "<@") {
        return (Command::Usage, "");
    }
    let text = content.substring_char(at + 1, len);
    understand(text)
}

/// Reads the text of a command.
pub fn understand<'a>(text: &'a str) -> (res: (Command, &'a str))
    ensures
        res.0 == meaning(text@).0,
        res.1@ == meaning(text@).1,
{
    proof {
        reveal_strlit("");
        reveal_strlit("add ");
        reveal_strlit("remove ");
    }
    if text.eq("help") {
        (Command::Help, "")
    } else if text.eq("list") {
        (Command::List, "")
    } else if begins(text, "add ") {
        (Command::Add, after(text, 4))
    } else if begins(text, "remove ") {
        (Command::Remove, after(text, 7))
    } else if text.eq("save") {
        (Command::Save, "")
    } else if text.eq("syntax") {
        (Command::Syntax, "")
    } else if text.eq("source") {
        (Command::Source, "")
    } else if text.eq("author") {
        (Command::Author, "")
    } else {
        (Command::Usage, "")
    }
}

/// The sender's subscriptions, each on a line of its own, or a word that there are none.
pub fn list_greps(greps: &GrepSet, author: u64) -> (reply: String)
    ensures
        reply@ == list_reply(greps@, author),
{
    let items = greps.all();
    let mut reply = String::new();
    let mut any = false;
    let mut i: usize = 0;
    proof {
        reveal_strlit("\n");
        assert("\n"@ =~= seq!['\n']);
    }
    while i < items.len()
        invariant
            i <= items.len(),
            reply@ == listing(items@.take(i as int), author),
            any <==> exists|k: int| 0 <= k < i && (#[trigger] items@[k]).1 == author,
            "\n"@ == seq!['\n'],
        decreases items.len() - i,
    {
        proof {
            assert(items@.take(i + 1).drop_last() =~= items@.take(i as int));
            assert(items@.take(i + 1).last() == items@[i as int]);
        }
        if items[i].owner() == author {
            reply.append("\n");
            reply.append(items[i].as_str());
            any = true;
        }
        i += 1;
    }
    proof {
        assert(items@.take(i as int) =~= items@);
    }
    if any {
        reply
    } else {
        String::from_str("you have no greps")
    }
}

/// Words the reply to `add`, given how the insertion ended.
pub fn add_reply(outcome: Result<(), InsertError>) -> (reply: String)
    ensures
        reply@ == add_reply_text(outcome),
{
    match outcome {
        Ok(_) => String::from_str("Regex added"),
        Err(InsertError::DuplicateSubscription) => String::from_str("Regex already exists"),
        Err(InsertError::InvalidPattern(message)) => {
            let mut reply = String::from_str("Invalid regex. ");
            reply.append(message.as_str());
            reply
        },
    }
}

/// Subscribes `author` to `pattern` and words the reply.
pub fn add_grep(pattern: &str, greps: &mut GrepSet, author: u64) -> (reply: String)
    requires
        old(greps).wf(),
    ensures
        final(greps).wf(),
        reloadable(old(greps)@) ==> reloadable(final(greps)@),
        adds(old(greps)@, final(greps)@, author, pattern@, reply@),
{
    let outcome = greps.insert(author, pattern);
    add_reply(outcome)
}

/// Words the reply to `remove`, given whether the subscription was there.
pub fn remove_reply(pattern: &str, found: bool) -> (reply: String)
    ensures
        reply@ == remove_reply_text(pattern@, found),
{
    let mut reply = String::from_str("Regex ");
    reply.append(pattern);
    if found {
        reply.append(" removed");
    } else {
        reply.append(" was not found");
    }
    reply
}

/// Unsubscribes `author` from exactly `pattern` and words the reply.
pub fn remove_grep(pattern: &str, greps: &mut GrepSet, author: u64) -> (reply: String)
    requires
        old(greps).wf(),
    ensures
        final(greps).wf(),
        reloadable(old(greps)@) ==> reloadable(final(greps)@),
        final(greps)@ == removed(old(greps)@, pattern@, author),
        reply@ == remove_reply_text(pattern@, holds(old(greps)@, pattern@, author)),
{
    let found = greps.remove(author, pattern);
    remove_reply(pattern, found)
}

/// Words the reply to `save`, given the snapshot as JSON text.
pub fn save_reply(json: Option<String>) -> (reply: Option<String>)
    ensures
        text_of(reply) == save_reply_text(text_of(json)),
{
    match json {
        Some(text) => {
            let mut reply = String::from_str("`");
            reply.append(text.as_str());
            reply.append("`");
            Some(reply)
        },
        None => None,
    }
}

/// Handles a message that addresses the bot: reads the command, changes the
/// subscriptions where it is `add` or `remove`, and words the reply. The one
/// command without a reply is a `save` whose snapshot could not be written.
pub fn handle(message: &Message, greps: &mut GrepSet, docs: &Docs) -> (reply: Option<String>)
    requires
        old(greps).wf(),
    ensures
        final(greps).wf(),
        reloadable(old(greps)@) ==> reloadable(final(greps)@),
        answers(
            parsed(message.content@),
            message.author.id,
            old(greps)@,
            final(greps)@,
            *docs,
            text_of(reply),
        ),
{
    let (command, pattern) = parse(message.content.as_str());
    let author: u64 = message.author.id;
    match command {
        Command::Help => Some(docs.help.clone()),
        Command::List => Some(list_greps(greps, author)),
        Command::Add => Some(add_grep(pattern, greps, author)),
        Command::Remove => Some(remove_grep(pattern, greps, author)),
        Command::Save => {
            let snapshot = greps.to_pairs();
            save_reply(to_json(&snapshot))
        },
        Command::Syntax => Some(docs.syntax.clone()),
        Command::Source => Some(String::from_str(SOURCE)),
        Command::Author => Some(String::from_str(AUTHOR)),
        Command::Usage => Some(docs.usage.clone()),
    }
}

} // verus!
