//! The bot's state and what it does with each message: the subscriptions, the
//! cooldown record, and the choice between command and notification.

use crate::command::{answers, parsed, text_of, Docs};
use crate::config::TIME_OUT;
use crate::cooldown::Cooldowns;
use crate::grep::Grep;
use crate::message::{notify_set, payload, recorded};
use crate::model::{Message, User};
use crate::store::{distinct, reloadable, GrepSet};
use vstd::prelude::*;

verus! {

/// Whether `user` is the bot itself.
pub open spec fn is_bot_account(user: User) -> bool {
    user.discriminator == 9866 && user.name@ == "TestApp"@
}

/// Whether a message that mentions `mentions` addresses the bot.
pub open spec fn addresses_bot(mentions: Seq<User>) -> bool {
    exists|i: int| 0 <= i < mentions.len() && is_bot_account(#[trigger] mentions[i])
}

/// What is to be done with a message.
#[derive(Clone, Copy, Debug, PartialEq, Eq)]
pub enum Route {
    /// Nothing: a bot wrote it.
    Ignore,
    /// It mentions the bot: it is a command.
    Command,
    /// It is held against the subscriptions.
    Notify,
}

/// What is to be done with `message`.
pub open spec fn route_of(message: Message) -> Route {
    if message.author.bot {
        Route::Ignore
    } else if addresses_bot(message.mentions@) {
        Route::Command
    } else {
        Route::Notify
    }
}

/// The bot's state: the subscriptions and the cooldown record. Times are in seconds.
pub struct Handler {
    greps: GrepSet,
    timeouts: Cooldowns,
}

impl Handler {
    /// The subscriptions, oldest first.
    pub closed spec fn subscriptions(&self) -> Seq<Grep> {
        self.greps@
    }

    /// When each user was last notified in each channel.
    pub closed spec fn cooldowns(&self) -> Map<(u64, u64), u64> {
        self.timeouts@
    }

    /// The cooldown interval.
    pub closed spec fn interval(&self) -> u64 {
        self.timeouts.interval()
    }

    /// No subscription is held twice, and the cooldown interval is five minutes.
    pub open spec fn wf(&self) -> bool {
        distinct(self.subscriptions()) && self.interval() == TIME_OUT
    }

    /// A handler with the given subscriptions and nothing on the cooldown record.
    pub fn new(greps: GrepSet) -> (handler: Handler)
        requires
            greps.wf(),
        ensures
            handler.wf(),
            handler.subscriptions() == greps@,
            handler.cooldowns() == Map::<(u64, u64), u64>::empty(),
    {
        Handler { greps, timeouts: Cooldowns::new(TIME_OUT) }
    }

    /// The subscriptions, for a snapshot.
    pub fn greps(&self) -> (greps: &GrepSet)
        ensures
            greps@ == self.subscriptions(),
    {
        &self.greps
    }

    /// Whether `user` is the bot itself.
    pub fn is_self(user: &User) -> (yes: bool)
        ensures
            yes == is_bot_account(*user),
    {
        user.discriminator == 9866 && user.name.as_str().eq("TestApp")
    }

    /// Decides what is to be done with `message`: a bot's message is passed
    /// over; one that mentions the bot is a command; any other is held against
    /// the subscriptions.
    pub fn route(message: &Message) -> (route: Route)
        ensures
            route == route_of(*message),
    {
        if message.author.bot {
            return Route::Ignore;
        }
        let mut addressed = false;
        let mut i: usize = 0;
        while i < message.mentions.len()
            invariant
                i <= message.mentions.len(),
                addressed <==> exists|k: int|
                    0 <= k < i && is_bot_account(#[trigger] message.mentions@[k]),
            decreases message.mentions.len() - i,
        {
            if Handler::is_self(&message.mentions[i]) {
                addressed = true;
            }
            i += 1;
        }
        if addressed {
            Route::Command
        } else {
            Route::Notify
        }
    }

    /// Handles a message that addresses the bot. The cooldown record stays as it is.
    pub fn handle_command(&mut self, message: &Message, docs: &Docs) -> (reply: Option<String>)
        requires
            old(self).wf(),
        ensures
            final(self).wf(),
            reloadable(old(self).subscriptions()) ==> reloadable(final(self).subscriptions()),
            final(self).cooldowns() == old(self).cooldowns(),
            answers(
                parsed(message.content@),
                message.author.id,
                old(self).subscriptions(),
                final(self).subscriptions(),
                *docs,
                text_of(reply),
            ),
    {
        crate::command::handle(message, &mut self.greps, docs)
    }

    /// Handles a message that is no command, which arrived at `now`: notifies
    /// the owners of the subscriptions that match it, and puts that on record.
    /// The subscriptions stay as they are.
    pub fn handle_message(&mut self, message: &Message, now: u64) -> (reply: Option<String>)
        requires
            old(self).wf(),
        ensures
            final(self).wf(),
            reloadable(old(self).subscriptions()) ==> reloadable(final(self).subscriptions()),
            final(self).subscriptions() == old(self).subscriptions(),
            notifies(*old(self), *final(self), *message, now, text_of(reply)),
    {
        crate::message::handle(message, &self.greps, &mut self.timeouts, now)
    }

    /// Handles one message, which arrived at `now`, as its route says. The
    /// reply, if any, is for the caller to send.
    pub fn message(&mut self, message: &Message, docs: &Docs, now: u64) -> (reply: Option<String>)
        requires
            old(self).wf(),
        ensures
            final(self).wf(),
            reloadable(old(self).subscriptions()) ==> reloadable(final(self).subscriptions()),
            match route_of(*message) {
                Route::Ignore => {
                    &&& reply is None
                    &&& final(self).subscriptions() == old(self).subscriptions()
                    &&& final(self).cooldowns() == old(self).cooldowns()
                },
                Route::Command => {
                    &&& final(self).cooldowns() == old(self).cooldowns()
                    &&& answers(
                        parsed(message.content@),
                        message.author.id,
                        old(self).subscriptions(),
                        final(self).subscriptions(),
                        *docs,
                        text_of(reply),
                    )
                },
                Route::Notify => {
                    &&& final(self).subscriptions() == old(self).subscriptions()
                    &&& notifies(*old(self), *final(self), *message, now, text_of(reply))
                },
            },
    {
        match Handler::route(message) {
            Route::Ignore => None,
            Route::Command => self.handle_command(message, docs),
            Route::Notify => self.handle_message(message, now),
        }
    }
}

/// What a message that is no command does: `before` and `after` are the
/// handler before and after it arrived at `now`, `reply` is the notification,
/// if there is one.
pub open spec fn notifies(
    before: Handler,
    after: Handler,
    message: Message,
    now: u64,
    reply: Option<Seq<char>>,
) -> bool {
    let users = notify_set(message, before.subscriptions(), before.cooldowns(), before.interval(), now);
    &&& after.cooldowns() == recorded(before.cooldowns(), users, message.channel_id, now)
    &&& reply == (if users.len() == 0 {
        None
    } else {
        Some(payload(users))
    })
}

} // verus!
