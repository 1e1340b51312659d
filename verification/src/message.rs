//! Message handling: who is to be told of a message, and in what words.
//!
//! A message that is no command is held against every subscription. The owners
//! of those that match, but for the author, are mentioned in one reply, unless
//! they were mentioned in the same channel within the cooldown interval.

use crate::cooldown::{due, Cooldowns};
use crate::grep::Grep;
use crate::mention::{mention, mention_text};
use crate::model::Message;
use crate::seqs::{lemma_contains_last, lemma_contains_pushed};
use crate::store::GrepSet;
use vstd::prelude::*;

verus! {

/// The owners of the subscriptions in `s` whose pattern matches `text`, in the
/// order of `s`; an owner stands once for each of their matching subscriptions.
pub open spec fn matching(s: Seq<Grep>, text: Seq<char>) -> Seq<u64>
    decreases s.len(),
{
    if s.len() == 0 {
        Seq::empty()
    } else {
        let before = matching(s.drop_last(), text);
        if s.last().matches(text) {
            before.push(s.last().1)
        } else {
            before
        }
    }
}

/// Whether `user` owns a subscription in `s` whose pattern matches `text`.
pub open spec fn has_match(s: Seq<Grep>, text: Seq<char>, user: u64) -> bool {
    exists|i: int| 0 <= i < s.len() && (#[trigger] s[i]).1 == user && s[i].matches(text)
}

/// The notify-set of a message, in order: of `owners`, each user once, where
/// first named, but for the author and for those not yet due in the channel.
pub open spec fn notified(
    owners: Seq<u64>,
    author: u64,
    channel: u64,
    last: Map<(u64, u64), u64>,
    interval: u64,
    now: u64,
) -> Seq<u64>
    decreases owners.len(),
{
    if owners.len() == 0 {
        Seq::empty()
    } else {
        let before = notified(owners.drop_last(), author, channel, last, interval, now);
        let user = owners.last();
        if user != author && due(last, interval, user, channel, now) && !before.contains(user) {
            before.push(user)
        } else {
            before
        }
    }
}

/// The cooldown record after each of `users` was notified in `channel` at `now`.
pub open spec fn recorded(last: Map<(u64, u64), u64>, users: Seq<u64>, channel: u64, now: u64) -> Map<
    (u64, u64),
    u64,
>
    decreases users.len(),
{
    if users.len() == 0 {
        last
    } else {
        recorded(last, users.drop_last(), channel, now).insert((users.last(), channel), now)
    }
}

/// A space and a mention for each of `users`, in order.
pub open spec fn mentions(users: Seq<u64>) -> Seq<char>
    decreases users.len(),
{
    if users.len() == 0 {
        Seq::empty()
    } else {
        mentions(users.drop_last()) + seq![' '] + mention_text(users.last())
    }
}

/// The text of a notification to `users`.
pub open spec fn payload(users: Seq<u64>) -> Seq<char> {
    seq!['H', 'e', 'y', '!'] + mentions(users)
}

/// The notify-set of `message`, in order, given the subscriptions and the
/// cooldown record at the time `now` of its arrival.
pub open spec fn notify_set(
    message: Message,
    greps: Seq<Grep>,
    last: Map<(u64, u64), u64>,
    interval: u64,
    now: u64,
) -> Seq<u64> {
    notified(
        matching(greps, message.content@),
        message.author.id,
        message.channel_id,
        last,
        interval,
        now,
    )
}

/// What the record holds after `users` were notified: `now` for each of them
/// in `channel`, and what it held before for every other user and channel.
pub proof fn lemma_recorded(
    last: Map<(u64, u64), u64>,
    users: Seq<u64>,
    channel: u64,
    now: u64,
    key: (u64, u64),
)
    ensures
        recorded(last, users, channel, now).contains_key(key) <==> last.contains_key(key) || (key.1
            == channel && users.contains(key.0)),
        key.1 == channel && users.contains(key.0) ==> recorded(last, users, channel, now)[key] == now,
        !(key.1 == channel && users.contains(key.0)) ==> recorded(last, users, channel, now)[key]
            == last[key],
    decreases users.len(),
{
    if users.len() > 0 {
        lemma_recorded(last, users.drop_last(), channel, now, key);
        lemma_contains_last(users, key.0);
    }
}

/// Who is in the notify-set: exactly the owners of a matching subscription
/// who did not write the message and are due in the channel. Nobody is in it twice.
pub proof fn notified_members(
    owners: Seq<u64>,
    author: u64,
    channel: u64,
    last: Map<(u64, u64), u64>,
    interval: u64,
    now: u64,
    user: u64,
)
    ensures
        notified(owners, author, channel, last, interval, now).contains(user) <==> owners.contains(
            user,
        ) && user != author && due(last, interval, user, channel, now),
        notified(owners, author, channel, last, interval, now).no_duplicates(),
    decreases owners.len(),
{
    if owners.len() > 0 {
        let before = notified(owners.drop_last(), author, channel, last, interval, now);
        notified_members(owners.drop_last(), author, channel, last, interval, now, user);
        lemma_contains_last(owners, user);
        lemma_contains_pushed(before, owners.last(), user);
    }
}

/// The owners of the matching subscriptions are the users who own a
/// subscription that matches.
pub proof fn matching_members(s: Seq<Grep>, text: Seq<char>, user: u64)
    ensures
        matching(s, text).contains(user) <==> has_match(s, text, user),
    decreases s.len(),
{
    if s.len() > 0 {
        let front = s.drop_last();
        matching_members(front, text, user);
        lemma_contains_pushed(matching(front, text), s.last().1, user);
        if has_match(front, text, user) {
            let i = choose|i: int| 0 <= i < front.len() && (#[trigger] front[i]).1 == user && front[i].matches(text);
            assert(s[i] == front[i]);
        }
        if s.last().1 == user && s.last().matches(text) {
            assert(s[s.len() - 1] == s.last());
        }
        if has_match(s, text, user) {
            let i = choose|i: int| 0 <= i < s.len() && (#[trigger] s[i]).1 == user && s[i].matches(text);
            if i < s.len() - 1 {
                assert(front[i] == s[i]);
            }
        }
    }
}

/// The notify-set of a message holds exactly the users who own a subscription
/// that matches its text, did not write it, and are due in its channel; each
/// of them once.
pub proof fn notify_set_members(
    message: Message,
    greps: Seq<Grep>,
    last: Map<(u64, u64), u64>,
    interval: u64,
    now: u64,
    user: u64,
)
    ensures
        notify_set(message, greps, last, interval, now).contains(user) <==> has_match(
            greps,
            message.content@,
            user,
        ) && user != message.author.id && due(last, interval, user, message.channel_id, now),
        notify_set(message, greps, last, interval, now).no_duplicates(),
{
    matching_members(greps, message.content@, user);
    notified_members(
        matching(greps, message.content@),
        message.author.id,
        message.channel_id,
        last,
        interval,
        now,
        user,
    );
}

/// Self-exclusion: the author of a message is never in its notify-set, whatever
/// the author has subscribed to.
pub proof fn author_is_never_notified(
    message: Message,
    greps: Seq<Grep>,
    last: Map<(u64, u64), u64>,
    interval: u64,
    now: u64,
)
    ensures
        !notify_set(message, greps, last, interval, now).contains(message.author.id),
{
    notified_members(
        matching(greps, message.content@),
        message.author.id,
        message.channel_id,
        last,
        interval,
        now,
        message.author.id,
    );
}

/// Cooldown: a user who was notified in a channel at `then` is not notified
/// there again by a message that arrives at `now` unless more than the
/// interval has passed since; once it has, a message that matches one of the
/// user's subscriptions and is not the user's own does notify them again.
pub proof fn cooldown_suppresses(
    first: Seq<u64>,
    first_author: u64,
    second: Seq<u64>,
    second_author: u64,
    channel: u64,
    last: Map<(u64, u64), u64>,
    interval: u64,
    then: u64,
    now: u64,
    user: u64,
)
    requires
        notified(first, first_author, channel, last, interval, then).contains(user),
    ensures
        ({
            let after = recorded(
                last,
                notified(first, first_author, channel, last, interval, then),
                channel,
                then,
            );
            let again = notified(second, second_author, channel, after, interval, now);
            &&& now - then <= interval ==> !again.contains(user)
            &&& now - then > interval && second.contains(user) && user != second_author
                ==> again.contains(user)
        }),
{
    let told = notified(first, first_author, channel, last, interval, then);
    let after = recorded(last, told, channel, then);
    lemma_recorded(last, told, channel, then, (user, channel));
    notified_members(second, second_author, channel, after, interval, now, user);
}

/// Channels are independent: what is on record for one channel changes nobody's
/// notifications in another.
pub proof fn channels_are_independent(
    owners: Seq<u64>,
    author: u64,
    channel: u64,
    last: Map<(u64, u64), u64>,
    interval: u64,
    now: u64,
    told: Seq<u64>,
    other_channel: u64,
    then: u64,
)
    requires
        other_channel != channel,
    ensures
        forall|user: u64|
            due(recorded(last, told, other_channel, then), interval, user, channel, now) == due(
                last,
                interval,
                user,
                channel,
                now,
            ),
        notified(owners, author, channel, recorded(last, told, other_channel, then), interval, now)
            == notified(owners, author, channel, last, interval, now),
    decreases owners.len(),
{
    let after = recorded(last, told, other_channel, then);
    assert forall|user: u64|
        due(after, interval, user, channel, now) == due(last, interval, user, channel, now) by {
        lemma_recorded(last, told, other_channel, then, (user, channel));
    }
    if owners.len() > 0 {
        channels_are_independent(
            owners.drop_last(),
            author,
            channel,
            last,
            interval,
            now,
            told,
            other_channel,
            then,
        );
    }
}

/// Aggregation: where the matching subscriptions belong to exactly three
/// users, none of them the author and all of them due, the notify-set holds
/// those three, each once, and nobody else.
pub proof fn three_owners_are_all_notified(
    owners: Seq<u64>,
    author: u64,
    channel: u64,
    last: Map<(u64, u64), u64>,
    interval: u64,
    now: u64,
    a: u64,
    b: u64,
    c: u64,
)
    requires
        a != b && b != c && a != c,
        a != author && b != author && c != author,
        forall|user: u64| owners.contains(user) <==> user == a || user == b || user == c,
        due(last, interval, a, channel, now),
        due(last, interval, b, channel, now),
        due(last, interval, c, channel, now),
    ensures
        notified(owners, author, channel, last, interval, now).len() == 3,
        notified(owners, author, channel, last, interval, now).to_set() == set![a, b, c],
        notified(owners, author, channel, last, interval, now).no_duplicates(),
{
    let told = notified(owners, author, channel, last, interval, now);
    assert forall|user: u64| told.contains(user) <==> user == a || user == b || user == c by {
        notified_members(owners, author, channel, last, interval, now, user);
    }
    notified_members(owners, author, channel, last, interval, now, a);
    assert(told.to_set() =~= set![a, b, c]);
    told.unique_seq_to_set();
    assert(set![a, b, c].len() == 3) by {
        assert(set![a, b, c] =~= Set::<u64>::empty().insert(a).insert(b).insert(c));
    }
}

/// The owners of the subscriptions of `greps` that match `text`.
pub fn owners_matching(greps: &GrepSet, text: &str) -> (owners: Vec<u64>)
    ensures
        owners@ == matching(greps@, text@),
{
    let items = greps.all();
    let mut owners: Vec<u64> = Vec::new();
    let mut i: usize = 0;
    while i < items.len()
        invariant
            i <= items.len(),
            owners@ == matching(items@.take(i as int), text@),
        decreases items.len() - i,
    {
        proof {
            assert(items@.take(i + 1).drop_last() =~= items@.take(i as int));
            assert(items@.take(i + 1).last() == items@[i as int]);
        }
        if items[i].is_match(text) {
            owners.push(items[i].owner());
        }
        i += 1;
    }
    proof {
        assert(items@.take(i as int) =~= items@);
    }
    owners
}

/// Decides who among `owners` is notified of a message by `author` in
/// `channel` at `now`, puts each notification on record, and words the reply.
/// `owners` are the owners of the matching subscriptions. Nobody is notified
/// twice, the author is never notified, and a user who was notified in this
/// channel no longer than the cooldown interval ago is left out. The record is
/// made here, before anything is sent. No reply is due where nobody is left.
pub fn notify(owners: &Vec<u64>, author: u64, channel: u64, timeouts: &mut Cooldowns, now: u64) -> (out:
    Option<String>)
    ensures
        final(timeouts).interval() == old(timeouts).interval(),
        final(timeouts)@ == recorded(
            old(timeouts)@,
            notified(owners@, author, channel, old(timeouts)@, old(timeouts).interval(), now),
            channel,
            now,
        ),
        match out {
            None => notified(
                owners@,
                author,
                channel,
                old(timeouts)@,
                old(timeouts).interval(),
                now,
            ).len() == 0,
            Some(text) => text@ == payload(
                notified(owners@, author, channel, old(timeouts)@, old(timeouts).interval(), now),
            ) && notified(
                owners@,
                author,
                channel,
                old(timeouts)@,
                old(timeouts).interval(),
                now,
            ).len() > 0,
        },
{
    let ghost last = timeouts@;
    let ghost interval = timeouts.interval();
    let ghost mut users: Seq<u64> = Seq::empty();
    let mut text = String::from_str("Hey!");
    let mut any = false;
    let mut i: usize = 0;
    proof {
        reveal_strlit("Hey!");
        reveal_strlit(" ");
        assert(text@ =~= payload(users));
    }
    while i < owners.len()
        invariant
            i <= owners.len(),
            timeouts.interval() == interval,
            users == notified(owners@.take(i as int), author, channel, last, interval, now),
            timeouts@ == recorded(last, users, channel, now),
            text@ == payload(users),
            any == (users.len() > 0),
            " "@ == seq![' '],
        decreases owners.len() - i,
    {
        let user: u64 = owners[i];
        proof {
            assert(owners@.take(i + 1).drop_last() =~= owners@.take(i as int));
            assert(owners@.take(i + 1).last() == user);
            lemma_recorded(last, users, channel, now, (user, channel));
        }
        if user != author && timeouts.should_notify(user, channel, now) {
            timeouts.record(user, channel, now);
            let who = mention(user);
            text.append(" ");
            text.append(who.as_str());
            any = true;
            proof {
                let longer = users.push(user);
                assert(longer.drop_last() =~= users);
                assert(text@ =~= payload(longer));
                users = longer;
            }
        }
        i += 1;
    }
    proof {
        assert(owners@.take(i as int) =~= owners@);
    }
    if any {
        Some(text)
    } else {
        None
    }
}

/// Handles a message that is no command: finds the subscriptions that match
/// its text and notifies their owners as `notify` says.
pub fn handle(message: &Message, greps: &GrepSet, timeouts: &mut Cooldowns, now: u64) -> (out: Option<
    String,
>)
    ensures
        final(timeouts).interval() == old(timeouts).interval(),
        final(timeouts)@ == recorded(
            old(timeouts)@,
            notify_set(*message, greps@, old(timeouts)@, old(timeouts).interval(), now),
            message.channel_id,
            now,
        ),
        match out {
            None => notify_set(*message, greps@, old(timeouts)@, old(timeouts).interval(), now).len()
                == 0,
            Some(text) => text@ == payload(
                notify_set(*message, greps@, old(timeouts)@, old(timeouts).interval(), now),
            ) && notify_set(*message, greps@, old(timeouts)@, old(timeouts).interval(), now).len()
                > 0,
        },
{
    let owners = owners_matching(greps, message.content.as_str());
    notify(&owners, message.author.id, message.channel_id, timeouts, now)
}

} // verus!
