//! The events and account data that the account operations write.
//!
//! Their JSON is `ruma`'s and `serde_json`'s; the core only names what it asks
//! them for and passes the text on.

use vstd::prelude::*;
use ruma::events::push_rules::{PushRulesEvent, PushRulesEventContent};
use ruma::events::room::member::{MembershipState, RoomMemberEventContent};
use ruma::events::{GlobalAccountDataEventType, RoomEventType};
use ruma::push::Ruleset;
use ruma::UserId;

verus! {

/// What the event-append collaborator builds an event from.
#[derive(Debug, PartialEq, Eq)]
pub struct PduBuilder {
    pub event_type: String,
    /// The event's content, as JSON text.
    pub content: String,
    pub unsigned: Option<String>,
    pub state_key: Option<String>,
    pub redacts: Option<String>,
}

/// The mathematical value of a [`PduBuilder`].
pub struct PduBuilderView {
    pub event_type: Seq<char>,
    pub content: Seq<char>,
    pub unsigned: Option<Seq<char>>,
    pub state_key: Option<Seq<char>>,
    pub redacts: Option<Seq<char>>,
}

impl View for PduBuilder {
    type V = PduBuilderView;

    open spec fn view(&self) -> PduBuilderView {
        PduBuilderView {
            event_type: self.event_type@,
            content: self.content@,
            unsigned: self.unsigned.deep_view(),
            state_key: self.state_key.deep_view(),
            redacts: self.redacts.deep_view(),
        }
    }
}

/// The `m.push_rules` event with the server's default rules for `user_id`, as
/// `ruma::push::Ruleset::server_default` makes them and `serde_json` writes
/// them; `None` where `user_id` is no user id.
pub uninterp spec fn default_push_rules(user_id: Seq<char>) -> Option<Seq<char>>;

/// Serialises, with `serde_json::value::to_raw_value`, the membership content
/// that `ruma`'s `RoomMemberEventContent::new` makes for `MembershipState::Leave`.
/// Trusted: every optional field of that content is absent and skipped, so the
/// text is the one object with the one key `membership`.
#[verifier::external_body]
fn leave_content() -> (res: String)
    ensures
        res@ == "{\"membership\":\"leave\"}"@,
{
    let event = RoomMemberEventContent::new(MembershipState::Leave);
    let raw = serde_json::value::to_raw_value(&event).expect("a membership content serialises");
    raw.get().to_owned()
}

/// The name of `ruma`'s `RoomEventType::RoomMember`. Trusted: it is
/// `m.room.member`.
#[verifier::external_body]
fn room_member_event_type() -> (res: String)
    ensures
        res@ == "m.room.member"@,
{
    RoomEventType::RoomMember.to_string()
}

/// The name of `ruma`'s `GlobalAccountDataEventType::PushRules`. Trusted: it
/// is `m.push_rules`.
#[verifier::external_body]
pub(crate) fn push_rules_event_type() -> (res: String)
    ensures
        res@ == "m.push_rules"@,
{
    GlobalAccountDataEventType::PushRules.to_string()
}

/// Calls `ruma::push::Ruleset::server_default` for the user id that `user_id`
/// spells and writes the `m.push_rules` event around it with
/// `serde_json::to_string`. Trusted: the result is a function of the text
/// alone, named [`default_push_rules`]; nothing more is claimed of it.
#[verifier::external_body]
pub(crate) fn server_default_push_rules(user_id: &str) -> (res: Option<String>)
    ensures
        res.deep_view() == default_push_rules(user_id@),
{
    match <&UserId>::try_from(user_id) {
        Ok(user) => {
            let content = PushRulesEventContent::new(Ruleset::server_default(user));
            serde_json::to_string(&PushRulesEvent { content }).ok()
        },
        Err(_) => None,
    }
}

/// The state event by which `user_id` leaves a room: a membership event with
/// the user as its state key and `leave` as its only content.
pub open spec fn leave_event_spec(user_id: Seq<char>) -> PduBuilderView {
    PduBuilderView {
        event_type: "m.room.member"@,
        content: "{\"membership\":\"leave\"}"@,
        unsigned: None,
        state_key: Some(user_id),
        redacts: None,
    }
}

/// The state event by which `user_id` leaves a room.
pub fn leave_event(user_id: &str) -> (res: PduBuilder)
    ensures
        res@ == leave_event_spec(user_id@),
{
    PduBuilder {
        event_type: room_member_event_type(),
        content: leave_content(),
        unsigned: None,
        state_key: Some(user_id.to_owned()),
        redacts: None,
    }
}

} // verus!
