use ruma_events::EventType;
use serde_json::{from_str, to_string};

#[test]
fn event_types_serialize_to_display_form() {
    assert_eq!(
        to_string(&EventType::RoomCreate.to_string()).unwrap(),
        r#""m.room.create""#
    );
}

#[test]
fn custom_event_types_serialize_to_display_form() {
    assert_eq!(
        to_string(&EventType::Custom("io.ruma.test".to_string()).to_string()).unwrap(),
        r#""io.ruma.test""#
    );
}

#[test]
fn event_types_deserialize_from_display_form() {
    assert_eq!(
        EventType::from(&from_str::<String>(r#""m.room.create""#).unwrap()),
        EventType::RoomCreate
    );
}

#[test]
fn custom_event_types_deserialize_from_display_form() {
    assert_eq!(
        EventType::from(&from_str::<String>(r#""io.ruma.test""#).unwrap()),
        EventType::Custom("io.ruma.test".to_string())
    )
}

const KNOWN: [(&str, EventType); 22] = [
    ("m.call.answer", EventType::CallAnswer),
    ("m.call.candidates", EventType::CallCandidates),
    ("m.call.hangup", EventType::CallHangup),
    ("m.call.invite", EventType::CallInvite),
    ("m.presence", EventType::Presence),
    ("m.receipt", EventType::Receipt),
    ("m.room.aliases", EventType::RoomAliases),
    ("m.room.avatar", EventType::RoomAvatar),
    ("m.room.canonical_alias", EventType::RoomCanonicalAlias),
    ("m.room.create", EventType::RoomCreate),
    ("m.room.guest_access", EventType::RoomGuestAccess),
    ("m.room.history_visibility", EventType::RoomHistoryVisibility),
    ("m.room.join_rules", EventType::RoomJoinRules),
    ("m.room.member", EventType::RoomMember),
    ("m.room.message", EventType::RoomMessage),
    ("m.room.name", EventType::RoomName),
    ("m.room.power_levels", EventType::RoomPowerLevels),
    ("m.room.redaction", EventType::RoomRedaction),
    ("m.room.third_party_invite", EventType::RoomThirdPartyInvite),
    ("m.room.topic", EventType::RoomTopic),
    ("m.tag", EventType::Tag),
    ("m.typing", EventType::Typing),
];

#[test]
fn every_known_type_prints_and_parses() {
    for (s, t) in KNOWN.iter() {
        assert_eq!(t.to_string(), *s);
        assert_eq!(EventType::from(s), *t);
    }
}

#[test]
fn known_types_round_trip() {
    for (_, t) in KNOWN.iter() {
        assert_eq!(EventType::from(&t.to_string()), *t);
    }
}

#[test]
fn custom_type_round_trips() {
    let t = EventType::Custom("org.example.thing".to_string());
    assert_eq!(t.to_string(), "org.example.thing");
    assert_eq!(EventType::from(&t.to_string()), t);
}

#[test]
fn empty_string_is_custom() {
    assert_eq!(EventType::from(""), EventType::Custom(String::new()));
    assert_eq!(EventType::Custom(String::new()).to_string(), "");
}

#[test]
fn near_miss_is_custom() {
    assert_eq!(
        EventType::from("m.room.Create"),
        EventType::Custom("m.room.Create".to_string())
    );
    assert_eq!(
        EventType::from("m.room.create "),
        EventType::Custom("m.room.create ".to_string())
    );
    assert_eq!(EventType::from("m.room"), EventType::Custom("m.room".to_string()));
}

#[test]
fn prefix_of_known_is_custom() {
    assert_eq!(EventType::from("m.tag.x"), EventType::Custom("m.tag.x".to_string()));
}
