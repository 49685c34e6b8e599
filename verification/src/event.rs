//! Decoding a queue message payload into a command invocation event.

use twilight_model::application::interaction::{InteractionData, InteractionType};
use twilight_model::gateway::payload::incoming::InteractionCreate;
use vstd::prelude::*;

verus! {

/// The deserialized form of a queue message payload that invokes a command:
/// the invoked command's name and the identity needed to respond.
#[derive(Clone)]
pub struct InvocationEvent {
    pub command_name: String,
    pub interaction_id: u64,
    pub token: String,
}

/// The mathematical model of an [`InvocationEvent`].
pub struct EventModel {
    pub name: Seq<char>,
    pub interaction_id: u64,
    pub token: Seq<char>,
}

impl View for InvocationEvent {
    type V = EventModel;

    open spec fn view(&self) -> EventModel {
        EventModel {
            name: self.command_name@,
            interaction_id: self.interaction_id,
            token: self.token@,
        }
    }
}

/// What decoding a payload can yield: bytes that are no interaction event at
/// all, an interaction of another kind (dropped without dispatch), or a
/// direct command invocation.
pub enum Parsed {
    Malformed,
    OtherKind,
    Command(InvocationEvent),
}

/// The mathematical model of a [`Parsed`] value.
pub enum ParsedModel {
    Malformed,
    OtherKind,
    Command(EventModel),
}

impl View for Parsed {
    type V = ParsedModel;

    open spec fn view(&self) -> ParsedModel {
        match self {
            Parsed::Malformed => ParsedModel::Malformed,
            Parsed::OtherKind => ParsedModel::OtherKind,
            Parsed::Command(e) => ParsedModel::Command(e@),
        }
    }
}

/// What decoding yields on given payload bytes. The decoder is a pure
/// function of the bytes, so its outcome bears a name; nothing but the
/// trusted decoder states what the name is on given bytes.
pub uninterp spec fn parsed_payload(data: Seq<u8>) -> ParsedModel;

/// Relies on `serde_json::from_slice` with `twilight_model`'s `Deserialize`
/// for `InteractionCreate`: the outcome is a function of the payload bytes
/// alone. Bytes that do not deserialize are malformed; a deserialized
/// interaction is a command invocation exactly when its kind is a direct
/// application command, and then carries the command name, the interaction
/// id and the response token.
#[verifier::external_body]
pub(crate) fn parse_payload(data: &Vec<u8>) -> (r: Parsed)
    ensures
        r@ == parsed_payload(data@),
{
    match serde_json::from_slice::<InteractionCreate>(data) {
        Err(_) => Parsed::Malformed,
        Ok(event) => match (event.0.kind, event.0.data) {
            (
                InteractionType::ApplicationCommand,
                Some(InteractionData::ApplicationCommand(data)),
            ) => Parsed::Command(InvocationEvent {
                command_name: data.name,
                interaction_id: event.0.id.get(),
                token: event.0.token,
            }),
            _ => Parsed::OtherKind,
        },
    }
}

} // verus!
