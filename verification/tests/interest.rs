use alert_relay::event::EventKind;
use alert_relay::interest::{
    Interest, InterestSet, GUILD_MESSAGES, GUILD_PRESENCES, MESSAGE_CONTENT,
};
use serenity::model::gateway::GatewayIntents;

#[test]
fn minimal_set_holds_messages_and_their_text() {
    let set = InterestSet::minimal();
    assert!(set.guild_messages);
    assert!(set.message_content);
    assert!(!set.guild_presences);
}

#[test]
fn holds_tells_the_subscriptions_apart() {
    let set = InterestSet::minimal();
    assert!(set.holds(Interest::GuildMessages));
    assert!(set.holds(Interest::MessageContent));
    assert!(!set.holds(Interest::GuildPresences));
    let only_presences =
        InterestSet { guild_messages: false, message_content: false, guild_presences: true };
    assert!(!only_presences.holds(Interest::GuildMessages));
    assert!(!only_presences.holds(Interest::MessageContent));
    assert!(only_presences.holds(Interest::GuildPresences));
}

#[test]
fn minimal_set_admits_messages_but_no_presence_updates() {
    let set = InterestSet::minimal();
    assert!(set.admits(EventKind::Ready));
    assert!(set.admits(EventKind::Message));
    assert!(!set.admits(EventKind::PresenceUpdate));
}

#[test]
fn widened_set_admits_presence_updates() {
    let set = InterestSet::minimal().with_presences();
    assert!(set.admits(EventKind::PresenceUpdate));
    assert!(set.admits(EventKind::Message));
    assert!(set.guild_messages);
    assert!(set.message_content);
    assert!(set.guild_presences);
}

#[test]
fn empty_set_admits_only_ready() {
    let set = InterestSet { guild_messages: false, message_content: false, guild_presences: false };
    assert!(set.admits(EventKind::Ready));
    assert!(!set.admits(EventKind::Message));
    assert!(!set.admits(EventKind::PresenceUpdate));
    assert_eq!(set.bits(), 0);
}

#[test]
fn bits_add_up_the_wire_values() {
    assert_eq!(InterestSet::minimal().bits(), 33280);
    assert_eq!(InterestSet::minimal().with_presences().bits(), 33536);
    let only_presences =
        InterestSet { guild_messages: false, message_content: false, guild_presences: true };
    assert_eq!(only_presences.bits(), 256);
    let only_messages =
        InterestSet { guild_messages: true, message_content: false, guild_presences: false };
    assert_eq!(only_messages.bits(), 512);
    let only_content =
        InterestSet { guild_messages: false, message_content: true, guild_presences: false };
    assert_eq!(only_content.bits(), 32768);
}

#[test]
fn wire_values_are_those_of_the_gateway_client() {
    assert_eq!(GUILD_PRESENCES, GatewayIntents::GUILD_PRESENCES.bits());
    assert_eq!(GUILD_MESSAGES, GatewayIntents::GUILD_MESSAGES.bits());
    assert_eq!(MESSAGE_CONTENT, GatewayIntents::MESSAGE_CONTENT.bits());
}

#[test]
fn minimal_set_converts_to_the_intents_it_stands_for() {
    let intents = GatewayIntents::from_bits_truncate(InterestSet::minimal().bits());
    assert_eq!(intents, GatewayIntents::GUILD_MESSAGES | GatewayIntents::MESSAGE_CONTENT);
}
