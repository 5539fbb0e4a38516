//! The interest set: which kinds of gateway events a session subscribes to.

use crate::event::EventKind;
use vstd::prelude::*;

verus! {

/// Wire value of the subscription to presence changes in guilds.
pub const GUILD_PRESENCES: u64 = 256;

/// Wire value of the subscription to messages posted in guilds.
pub const GUILD_MESSAGES: u64 = 512;

/// Wire value of the subscription to the text of messages.
pub const MESSAGE_CONTENT: u64 = 32768;

/// One subscription that a session can declare.
#[derive(Clone, Copy, Debug, PartialEq, Eq, Structural)]
pub enum Interest {
    /// Presence changes in guilds.
    GuildPresences,
    /// Messages posted in guild channels.
    GuildMessages,
    /// The text of delivered messages.
    MessageContent,
}

impl Interest {
    /// The value that declares this subscription to the gateway.
    pub open spec fn wire_value(self) -> u64 {
        match self {
            Interest::GuildPresences => GUILD_PRESENCES,
            Interest::GuildMessages => GUILD_MESSAGES,
            Interest::MessageContent => MESSAGE_CONTENT,
        }
    }
}

/// Reads the wire value of `interest` from the gateway client: the bits of
/// `GUILD_PRESENCES`, `GUILD_MESSAGES` or `MESSAGE_CONTENT` of
/// `serenity::model::gateway::GatewayIntents`.
///
/// Trusted, not proved: those three flags are declared as `1 << 8`,
/// `1 << 9` and `1 << 15`, and `bits` returns a flag's declared value.
#[verifier::external_body]
fn intent_bits(interest: Interest) -> (bits: u64)
    ensures
        bits == interest.wire_value(),
{
    match interest {
        Interest::GuildPresences => serenity::model::gateway::GatewayIntents::GUILD_PRESENCES.bits(),
        Interest::GuildMessages => serenity::model::gateway::GatewayIntents::GUILD_MESSAGES.bits(),
        Interest::MessageContent => serenity::model::gateway::GatewayIntents::MESSAGE_CONTENT.bits(),
    }
}

/// The subscriptions a session declares when it connects.
#[derive(Clone, Copy, Debug, PartialEq, Eq, Structural)]
pub struct InterestSet {
    /// Messages posted in guild channels are delivered.
    pub guild_messages: bool,
    /// Delivered messages carry their text.
    pub message_content: bool,
    /// Presence changes in guilds are delivered.
    pub guild_presences: bool,
}

impl InterestSet {
    /// The smallest set the relay works with: guild messages and their text.
    pub open spec fn spec_minimal() -> InterestSet {
        InterestSet { guild_messages: true, message_content: true, guild_presences: false }
    }

    /// Whether the set holds `interest`.
    pub open spec fn spec_holds(self, interest: Interest) -> bool {
        match interest {
            Interest::GuildPresences => self.guild_presences,
            Interest::GuildMessages => self.guild_messages,
            Interest::MessageContent => self.message_content,
        }
    }

    /// Whether events of `kind` are delivered under this set. `Ready` is
    /// always delivered; it needs no subscription.
    pub open spec fn spec_admits(self, kind: EventKind) -> bool {
        match kind {
            EventKind::Ready => true,
            EventKind::Message => self.spec_holds(Interest::GuildMessages),
            EventKind::PresenceUpdate => self.spec_holds(Interest::GuildPresences),
        }
    }

    /// What `interest` adds to the declared value of this set: its wire
    /// value if the set holds it, nothing otherwise.
    pub open spec fn share(self, interest: Interest) -> int {
        if self.spec_holds(interest) {
            interest.wire_value() as int
        } else {
            0
        }
    }

    /// The set as the gateway wants it declared: the sum of the wire values
    /// of the subscriptions it holds.
    pub open spec fn spec_bits(self) -> int {
        self.share(Interest::GuildPresences) + self.share(Interest::GuildMessages) + self.share(
            Interest::MessageContent,
        )
    }

    /// The smallest set the relay works with: guild messages and their text.
    pub fn minimal() -> (set: InterestSet)
        ensures
            set == Self::spec_minimal(),
    {
        InterestSet { guild_messages: true, message_content: true, guild_presences: false }
    }

    /// This set widened by presence changes; nothing else changes.
    pub fn with_presences(self) -> (set: InterestSet)
        ensures
            set == (InterestSet { guild_presences: true, ..self }),
    {
        InterestSet { guild_presences: true, ..self }
    }

    /// Whether the set holds `interest`.
    pub fn holds(&self, interest: Interest) -> (held: bool)
        ensures
            held == self.spec_holds(interest),
    {
        match interest {
            Interest::GuildPresences => self.guild_presences,
            Interest::GuildMessages => self.guild_messages,
            Interest::MessageContent => self.message_content,
        }
    }

    /// Whether events of `kind` are delivered under this set.
    pub fn admits(&self, kind: EventKind) -> (admitted: bool)
        ensures
            admitted == self.spec_admits(kind),
    {
        match kind {
            EventKind::Ready => true,
            EventKind::Message => self.holds(Interest::GuildMessages),
            EventKind::PresenceUpdate => self.holds(Interest::GuildPresences),
        }
    }

    /// The set as the gateway wants it declared.
    pub fn bits(&self) -> (bits: u64)
        ensures
            bits == self.spec_bits(),
    {
        let mut bits: u64 = 0;
        if self.holds(Interest::GuildPresences) {
            bits = bits + intent_bits(Interest::GuildPresences);
        }
        if self.holds(Interest::GuildMessages) {
            bits = bits + intent_bits(Interest::GuildMessages);
        }
        if self.holds(Interest::MessageContent) {
            bits = bits + intent_bits(Interest::MessageContent);
        }
        bits
    }
}

} // verus!
