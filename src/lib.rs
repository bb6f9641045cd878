//! Types for the events of the Matrix specification, starting with the open set of event
//! types that every event carries on the wire.

pub mod api;
pub mod get_devices;
pub mod path;
pub mod response;

use vstd::prelude::*;

verus! {

/// An event identifier of ruma_identifiers, carried through unread.
#[verifier::external_type_specification]
#[verifier::external_body]
pub struct ExEventId(ruma_identifiers::EventId);

/// A room identifier of ruma_identifiers, carried through unread.
#[verifier::external_type_specification]
#[verifier::external_body]
pub struct ExRoomId(ruma_identifiers::RoomId);

/// A user identifier of ruma_identifiers, carried through unread.
#[verifier::external_type_specification]
#[verifier::external_body]
pub struct ExUserId(ruma_identifiers::UserId);

/// A JSON value of serde_json, carried through unread.
#[verifier::external_type_specification]
#[verifier::external_body]
pub struct ExValue(serde_json::Value);

/// The type of an event.
#[derive(Clone, Debug, Eq, Hash, PartialEq)]
pub enum EventType {
    /// m.call.answer
    CallAnswer,
    /// m.call.candidates
    CallCandidates,
    /// m.call.hangup
    CallHangup,
    /// m.call.invite
    CallInvite,
    /// m.presence
    Presence,
    /// m.receipt
    Receipt,
    /// m.room.aliases
    RoomAliases,
    /// m.room.avatar
    RoomAvatar,
    /// m.room.canonical_alias
    RoomCanonicalAlias,
    /// m.room.create
    RoomCreate,
    /// m.room.guest_access
    RoomGuestAccess,
    /// m.room.history_visibility
    RoomHistoryVisibility,
    /// m.room.join_rules
    RoomJoinRules,
    /// m.room.member
    RoomMember,
    /// m.room.message
    RoomMessage,
    /// m.room.name
    RoomName,
    /// m.room.power_levels
    RoomPowerLevels,
    /// m.room.redaction
    RoomRedaction,
    /// m.room.third_party_invite
    RoomThirdPartyInvite,
    /// m.room.topic
    RoomTopic,
    /// m.tag
    Tag,
    /// m.typing
    Typing,
    /// Any event that is not part of the specification.
    Custom(String),
}

/// A basic event.
pub struct Event<C, E> {
    /// Data specific to the event type.
    pub content: C,
    /// The type of the event.
    pub event_type: EventType,
    /// Extra top-level key-value pairs specific to this event type, but that are not under the
    /// `content` field.
    pub extra_content: E,
}

/// An event within the context of a room.
pub struct RoomEvent<C, E> {
    /// Data specific to the event type.
    pub content: C,
    /// The unique identifier for the event.
    pub event_id: Box<ruma_identifiers::EventId>,
    /// Extra top-level key-value pairs specific to this event type, but that are not under the
    /// `content` field.
    pub extra_content: E,
    /// The type of the event.
    pub event_type: EventType,
    /// The unique identifier for the room associated with this event.
    pub room_id: Box<ruma_identifiers::RoomId>,
    /// Additional key-value pairs not signed by the homeserver.
    pub unsigned: Option<serde_json::Value>,
    /// The unique identifier for the user associated with this event (its `sender`).
    pub user_id: Box<ruma_identifiers::UserId>,
}

/// An event that describes persistent state about a room.
pub struct StateEvent<C, E> {
    /// Data specific to the event type.
    pub content: C,
    /// The unique identifier for the event.
    pub event_id: Box<ruma_identifiers::EventId>,
    /// The type of the event.
    pub event_type: EventType,
    /// Extra top-level key-value pairs specific to this event type, but that are not under the
    /// `content` field.
    pub extra_content: E,
    /// The previous content for this state key, if any.
    pub prev_content: Option<C>,
    /// The unique identifier for the room associated with this event.
    pub room_id: Box<ruma_identifiers::RoomId>,
    /// A key that determines which piece of room state the event represents.
    pub state_key: String,
    /// Additional key-value pairs not signed by the homeserver.
    pub unsigned: Option<serde_json::Value>,
    /// The unique identifier for the user associated with this event (its `sender`).
    pub user_id: Box<ruma_identifiers::UserId>,
}

/// A custom basic event not covered by the Matrix specification.
pub type CustomEvent = Event<serde_json::Value, ()>;

/// A custom room event not covered by the Matrix specification.
pub type CustomRoomEvent = RoomEvent<serde_json::Value, ()>;

/// A custom state event not covered by the Matrix specification.
pub type CustomStateEvent = StateEvent<serde_json::Value, ()>;

/// The wire string of an event type: the canonical name of a known type, the held string of a
/// custom one.
pub open spec fn wire_str(t: EventType) -> Seq<char> {
    match t {
        EventType::CallAnswer => "m.call.answer"@,
        EventType::CallCandidates => "m.call.candidates"@,
        EventType::CallHangup => "m.call.hangup"@,
        EventType::CallInvite => "m.call.invite"@,
        EventType::Presence => "m.presence"@,
        EventType::Receipt => "m.receipt"@,
        EventType::RoomAliases => "m.room.aliases"@,
        EventType::RoomAvatar => "m.room.avatar"@,
        EventType::RoomCanonicalAlias => "m.room.canonical_alias"@,
        EventType::RoomCreate => "m.room.create"@,
        EventType::RoomGuestAccess => "m.room.guest_access"@,
        EventType::RoomHistoryVisibility => "m.room.history_visibility"@,
        EventType::RoomJoinRules => "m.room.join_rules"@,
        EventType::RoomMember => "m.room.member"@,
        EventType::RoomMessage => "m.room.message"@,
        EventType::RoomName => "m.room.name"@,
        EventType::RoomPowerLevels => "m.room.power_levels"@,
        EventType::RoomRedaction => "m.room.redaction"@,
        EventType::RoomThirdPartyInvite => "m.room.third_party_invite"@,
        EventType::RoomTopic => "m.room.topic"@,
        EventType::Tag => "m.tag"@,
        EventType::Typing => "m.typing"@,
        EventType::Custom(s) => s@,
    }
}

/// Whether `s` is the wire string of one of the known event types.
pub open spec fn is_known_str(s: Seq<char>) -> bool {
    s == "m.call.answer"@
        || s == "m.call.candidates"@
        || s == "m.call.hangup"@
        || s == "m.call.invite"@
        || s == "m.presence"@
        || s == "m.receipt"@
        || s == "m.room.aliases"@
        || s == "m.room.avatar"@
        || s == "m.room.canonical_alias"@
        || s == "m.room.create"@
        || s == "m.room.guest_access"@
        || s == "m.room.history_visibility"@
        || s == "m.room.join_rules"@
        || s == "m.room.member"@
        || s == "m.room.message"@
        || s == "m.room.name"@
        || s == "m.room.power_levels"@
        || s == "m.room.redaction"@
        || s == "m.room.third_party_invite"@
        || s == "m.room.topic"@
        || s == "m.tag"@
        || s == "m.typing"@
}

/// What an event type is, as a value: whether it is custom, and its wire string.
pub open spec fn tag_view(t: EventType) -> (bool, Seq<char>) {
    (t is Custom, wire_str(t))
}

/// `r` is the event type that the wire string `s` denotes: a known type where `s` names one,
/// else `Custom(s)`.
pub open spec fn parses_to(s: Seq<char>, r: EventType) -> bool {
    &&& wire_str(r) == s
    &&& (r is Custom <==> !is_known_str(s))
}

impl EventType {
    /// A custom event type holds a string that no known type has: such a string always parses to
    /// the known type.
    pub open spec fn wf(self) -> bool {
        self is Custom ==> !is_known_str(wire_str(self))
    }

    /// The wire string of this event type.
    pub fn to_string(&self) -> (r: String)
        ensures
            r@ == wire_str(*self),
    {
        match self {
            EventType::CallAnswer => "m.call.answer".to_owned(),
            EventType::CallCandidates => "m.call.candidates".to_owned(),
            EventType::CallHangup => "m.call.hangup".to_owned(),
            EventType::CallInvite => "m.call.invite".to_owned(),
            EventType::Presence => "m.presence".to_owned(),
            EventType::Receipt => "m.receipt".to_owned(),
            EventType::RoomAliases => "m.room.aliases".to_owned(),
            EventType::RoomAvatar => "m.room.avatar".to_owned(),
            EventType::RoomCanonicalAlias => "m.room.canonical_alias".to_owned(),
            EventType::RoomCreate => "m.room.create".to_owned(),
            EventType::RoomGuestAccess => "m.room.guest_access".to_owned(),
            EventType::RoomHistoryVisibility => "m.room.history_visibility".to_owned(),
            EventType::RoomJoinRules => "m.room.join_rules".to_owned(),
            EventType::RoomMember => "m.room.member".to_owned(),
            EventType::RoomMessage => "m.room.message".to_owned(),
            EventType::RoomName => "m.room.name".to_owned(),
            EventType::RoomPowerLevels => "m.room.power_levels".to_owned(),
            EventType::RoomRedaction => "m.room.redaction".to_owned(),
            EventType::RoomThirdPartyInvite => "m.room.third_party_invite".to_owned(),
            EventType::RoomTopic => "m.room.topic".to_owned(),
            EventType::Tag => "m.tag".to_owned(),
            EventType::Typing => "m.typing".to_owned(),
            EventType::Custom(s) => s.clone(),
        }
    }

    /// The event type that a wire string denotes. This never fails: a string that names no
    /// known type becomes a custom one.
    pub fn from(s: &str) -> (r: EventType)
        ensures
            parses_to(s@, r),
            r.wf(),
    {
        let owned = s.to_owned();
        if same_str(&owned, "m.call.answer") {
            EventType::CallAnswer
        } else if same_str(&owned, "m.call.candidates") {
            EventType::CallCandidates
        } else if same_str(&owned, "m.call.hangup") {
            EventType::CallHangup
        } else if same_str(&owned, "m.call.invite") {
            EventType::CallInvite
        } else if same_str(&owned, "m.presence") {
            EventType::Presence
        } else if same_str(&owned, "m.receipt") {
            EventType::Receipt
        } else if same_str(&owned, "m.room.aliases") {
            EventType::RoomAliases
        } else if same_str(&owned, "m.room.avatar") {
            EventType::RoomAvatar
        } else if same_str(&owned, "m.room.canonical_alias") {
            EventType::RoomCanonicalAlias
        } else if same_str(&owned, "m.room.create") {
            EventType::RoomCreate
        } else if same_str(&owned, "m.room.guest_access") {
            EventType::RoomGuestAccess
        } else if same_str(&owned, "m.room.history_visibility") {
            EventType::RoomHistoryVisibility
        } else if same_str(&owned, "m.room.join_rules") {
            EventType::RoomJoinRules
        } else if same_str(&owned, "m.room.member") {
            EventType::RoomMember
        } else if same_str(&owned, "m.room.message") {
            EventType::RoomMessage
        } else if same_str(&owned, "m.room.name") {
            EventType::RoomName
        } else if same_str(&owned, "m.room.power_levels") {
            EventType::RoomPowerLevels
        } else if same_str(&owned, "m.room.redaction") {
            EventType::RoomRedaction
        } else if same_str(&owned, "m.room.third_party_invite") {
            EventType::RoomThirdPartyInvite
        } else if same_str(&owned, "m.room.topic") {
            EventType::RoomTopic
        } else if same_str(&owned, "m.tag") {
            EventType::Tag
        } else if same_str(&owned, "m.typing") {
            EventType::Typing
        } else {
            EventType::Custom(owned)
        }
    }
}

/// Whether a string equals a given literal.
fn same_str(s: &String, lit: &str) -> (r: bool)
    ensures
        r == (s@ == lit@),
{
    let l = lit.to_owned();
    s.eq(&l)
}

/// Printing an event type and parsing the result gives the same event type back; a string that
/// names no known type parses to a custom type that prints as that string.
pub proof fn lemma_round_trip(t: EventType, r: EventType, s: Seq<char>, c: EventType)
    requires
        t.wf(),
        parses_to(wire_str(t), r),
        !is_known_str(s),
        parses_to(s, c),
    ensures
        tag_view(r) == tag_view(t),
        c is Custom,
        wire_str(c) == s,
{
}

} // verus!
