//! The audit trail: what a state transition hands to the host for its
//! append-only event log.

use vstd::prelude::*;
use crate::errors::ContractError;
use crate::types::{CodeReference, Principal, PrincipalId};

verus! {

/// An event, as contracts see it.
pub enum EventView {
    TokenAdded { token: Principal, timestamp: u64 },
    TokenRemoved { token: Principal, timestamp: u64 },
    MerchantStatusChanged { merchant_id: u64, active: bool, timestamp: u64 },
    ContractUpgraded { new_code_reference: Seq<u8>, timestamp: u64 },
}

/// A payload value, as contracts see it.
pub enum FieldValueView {
    Principal(Principal),
    Number(u64),
    Flag(bool),
    Code(Seq<u8>),
}

impl EventView {
    /// The one topic under which the event is logged.
    pub open spec fn topic(self) -> Seq<char> {
        match self {
            EventView::TokenAdded { .. } => "token_added_event"@,
            EventView::TokenRemoved { .. } => "token_removed_event"@,
            EventView::MerchantStatusChanged { .. } => "merchant_status_changed_event"@,
            EventView::ContractUpgraded { .. } => "contract_upgraded_event"@,
        }
    }

    /// The payload: each key with its value, in the order of the event's
    /// fields.
    pub open spec fn payload(self) -> Seq<(Seq<char>, FieldValueView)> {
        match self {
            EventView::TokenAdded { token, timestamp } => seq![
                ("token"@, FieldValueView::Principal(token)),
                ("timestamp"@, FieldValueView::Number(timestamp)),
            ],
            EventView::TokenRemoved { token, timestamp } => seq![
                ("token"@, FieldValueView::Principal(token)),
                ("timestamp"@, FieldValueView::Number(timestamp)),
            ],
            EventView::MerchantStatusChanged { merchant_id, active, timestamp } => seq![
                ("merchant_id"@, FieldValueView::Number(merchant_id)),
                ("active"@, FieldValueView::Flag(active)),
                ("timestamp"@, FieldValueView::Number(timestamp)),
            ],
            EventView::ContractUpgraded { new_code_reference, timestamp } => seq![
                ("new_code_reference"@, FieldValueView::Code(new_code_reference)),
                ("timestamp"@, FieldValueView::Number(timestamp)),
            ],
        }
    }
}

/// A value in an event's payload.
#[derive(Debug)]
pub enum FieldValue {
    Principal(PrincipalId),
    Number(u64),
    Flag(bool),
    Code(CodeReference),
}

impl View for FieldValue {
    type V = FieldValueView;

    open spec fn view(&self) -> FieldValueView {
        match self {
            FieldValue::Principal(id) => FieldValueView::Principal(id@),
            FieldValue::Number(n) => FieldValueView::Number(*n),
            FieldValue::Flag(b) => FieldValueView::Flag(*b),
            FieldValue::Code(code) => FieldValueView::Code(code@),
        }
    }
}

/// One entry of an event's payload.
#[derive(Debug)]
pub struct Field {
    pub key: &'static str,
    pub value: FieldValue,
}

impl View for Field {
    type V = (Seq<char>, FieldValueView);

    open spec fn view(&self) -> (Seq<char>, FieldValueView) {
        (self.key@, self.value@)
    }
}

/// An audit record of one state transition.
#[derive(Debug)]
pub enum Event {
    /// A token entered the whitelist.
    TokenAdded { token: PrincipalId, timestamp: u64 },
    /// A token left the whitelist.
    TokenRemoved { token: PrincipalId, timestamp: u64 },
    /// A merchant's activation state was set.
    MerchantStatusChanged { merchant_id: u64, active: bool, timestamp: u64 },
    /// The running program's code was replaced.
    ContractUpgraded { new_code_reference: CodeReference, timestamp: u64 },
}

impl View for Event {
    type V = EventView;

    open spec fn view(&self) -> EventView {
        match self {
            Event::TokenAdded { token, timestamp } => EventView::TokenAdded {
                token: token@,
                timestamp: *timestamp,
            },
            Event::TokenRemoved { token, timestamp } => EventView::TokenRemoved {
                token: token@,
                timestamp: *timestamp,
            },
            Event::MerchantStatusChanged { merchant_id, active, timestamp } => {
                EventView::MerchantStatusChanged {
                    merchant_id: *merchant_id,
                    active: *active,
                    timestamp: *timestamp,
                }
            },
            Event::ContractUpgraded { new_code_reference, timestamp } => {
                EventView::ContractUpgraded {
                    new_code_reference: new_code_reference@,
                    timestamp: *timestamp,
                }
            },
        }
    }
}

/// The payload `fields`, as contracts see it.
pub open spec fn fields_view(fields: Seq<Field>) -> Seq<(Seq<char>, FieldValueView)> {
    fields.map_values(|field: Field| field@)
}

impl Event {
    /// The one topic under which the event is logged.
    pub fn topic(&self) -> (name: &'static str)
        ensures
            name@ == self@.topic(),
    {
        match self {
            Event::TokenAdded { .. } => "token_added_event",
            Event::TokenRemoved { .. } => "token_removed_event",
            Event::MerchantStatusChanged { .. } => "merchant_status_changed_event",
            Event::ContractUpgraded { .. } => "contract_upgraded_event",
        }
    }

    /// The payload: each key with its value, in the order of the event's
    /// fields.
    pub fn payload(&self) -> (fields: Vec<Field>)
        ensures
            fields_view(fields@) == self@.payload(),
    {
        let mut fields: Vec<Field> = Vec::new();
        match self {
            Event::TokenAdded { token, timestamp } => {
                fields.push(Field { key: "token", value: FieldValue::Principal(token.clone()) });
                fields.push(Field { key: "timestamp", value: FieldValue::Number(*timestamp) });
            },
            Event::TokenRemoved { token, timestamp } => {
                fields.push(Field { key: "token", value: FieldValue::Principal(token.clone()) });
                fields.push(Field { key: "timestamp", value: FieldValue::Number(*timestamp) });
            },
            Event::MerchantStatusChanged { merchant_id, active, timestamp } => {
                fields.push(Field { key: "merchant_id", value: FieldValue::Number(*merchant_id) });
                fields.push(Field { key: "active", value: FieldValue::Flag(*active) });
                fields.push(Field { key: "timestamp", value: FieldValue::Number(*timestamp) });
            },
            Event::ContractUpgraded { new_code_reference, timestamp } => {
                let code = *new_code_reference;
                fields.push(Field { key: "new_code_reference", value: FieldValue::Code(code) });
                fields.push(Field { key: "timestamp", value: FieldValue::Number(*timestamp) });
            },
        }
        assert(fields_view(fields@) =~= self@.payload());
        fields
    }
}

impl PartialEq for Event {
    fn eq(&self, other: &Event) -> (same: bool) {
        match (self, other) {
            (
                Event::TokenAdded { token: a, timestamp: s },
                Event::TokenAdded { token: b, timestamp: t },
            ) => *a == *b && *s == *t,
            (
                Event::TokenRemoved { token: a, timestamp: s },
                Event::TokenRemoved { token: b, timestamp: t },
            ) => *a == *b && *s == *t,
            (
                Event::MerchantStatusChanged { merchant_id: a, active: x, timestamp: s },
                Event::MerchantStatusChanged { merchant_id: b, active: y, timestamp: t },
            ) => *a == *b && *x == *y && *s == *t,
            (
                Event::ContractUpgraded { new_code_reference: a, timestamp: s },
                Event::ContractUpgraded { new_code_reference: b, timestamp: t },
            ) => *a == *b && *s == *t,
            _ => false,
        }
    }
}

impl Eq for Event {}

impl vstd::std_specs::cmp::PartialEqSpecImpl for Event {
    open spec fn obeys_eq_spec() -> bool {
        true
    }

    open spec fn eq_spec(&self, other: &Event) -> bool {
        self@ == other@
    }
}

/// What a transition that may emit an event answered, as contracts see it.
pub open spec fn emitted(outcome: Result<Option<Event>, ContractError>) -> Result<
    Option<EventView>,
    ContractError,
> {
    match outcome {
        Ok(Some(event)) => Ok(Some(event@)),
        Ok(None) => Ok(None),
        Err(error) => Err(error),
    }
}

/// What a transition that always emits an event answered, as contracts see
/// it.
pub open spec fn announced(outcome: Result<Event, ContractError>) -> Result<
    EventView,
    ContractError,
> {
    match outcome {
        Ok(event) => Ok(event@),
        Err(error) => Err(error),
    }
}

} // verus!
