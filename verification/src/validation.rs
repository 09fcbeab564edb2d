use vstd::prelude::*;

use crate::model::{
    creates_entry, ActionType, EntryTypeKind, FlatOp, LinkTypes, OpActivity, OpEntry, OpLink,
    OpRecord, OpUpdate, RecordFacts, UnitEntryTypes,
};
use crate::reasons::{Failure, InvalidReason};

verus! {

/// How the entry-creation action handed to a create validator is built
/// from the operation's own action.
#[derive(Clone, Copy, Debug, PartialEq, Eq)]
pub enum Creation {
    /// The operation's `Create` action.
    Create,
    /// The operation's `Update` action.
    Update,
}

/// Where the original action handed to an update validator comes from.
#[derive(Clone, Copy, Debug, PartialEq, Eq)]
pub enum OriginalAction {
    /// The action fetched with `GetAction`, narrowed to an entry creation.
    FetchedAction,
    /// The action of the record fetched with `GetValidRecord`, narrowed to
    /// an entry creation.
    FetchedRecord,
}

/// Where the original entry handed to an update validator comes from.
#[derive(Clone, Copy, Debug, PartialEq, Eq)]
pub enum OriginalEntry {
    /// The fetched record converted as a whole (`ConvertRecordEntry`).
    ConvertedRecord,
    /// The app entry read from the fetched record (`ReadRecordEntry`).
    RecordAppEntry,
}

/// Which action a link field handed to a link validator is taken from.
#[derive(Clone, Copy, Debug, PartialEq, Eq)]
pub enum LinkSource {
    /// The operation's own action.
    OpAction,
    /// The create-link action that a link-delete operation carries.
    OpOriginalAction,
    /// The action of the fetched record, narrowed to a `CreateLink`.
    FetchedRecord,
}

/// A call of one of the zome's entry or link validators. The operation's
/// own action and app entry are handed over as the variant says; the
/// validator is the one for the given entry or link type.
#[derive(Clone, Copy, Debug, PartialEq, Eq)]
pub enum ValidatorCall {
    /// `validate_create_post` / `validate_create_comment` with the
    /// operation's action, wrapped as `creation` says, and its app entry.
    CreateEntry { entry: UnitEntryTypes, creation: Creation },
    /// `validate_update_post` / `validate_update_comment` with the
    /// operation's update action, its app entry, and the original action
    /// and entry taken as the fields say.
    UpdateEntry { entry: UnitEntryTypes, original_action: OriginalAction, original_entry: OriginalEntry },
    /// `validate_delete_post` / `validate_delete_comment` with the operation's
    /// delete action, the fetched record's action narrowed to an entry
    /// creation, and the deserialized original entry.
    DeleteEntry { entry: UnitEntryTypes },
    /// `validate_create_link_*` with the operation's create-link action and
    /// that action's base address, target address and tag.
    CreateLink { link_type: LinkTypes },
    /// `validate_delete_link_*` with the operation's delete-link action, the
    /// original create-link action, its base address, and its target address
    /// and tag, each taken from the action the fields name.
    DeleteLink {
        link_type: LinkTypes,
        original_action: LinkSource,
        base: LinkSource,
        target_and_tag: LinkSource,
    },
}

/// The address a fetch asks for.
#[derive(Clone, Copy, Debug, PartialEq, Eq)]
pub enum Target {
    /// The `original_action_address` of the operation's update action.
    OriginalActionAddress,
    /// The `deletes_address` of the operation's delete action.
    DeletesAddress,
    /// The `link_add_address` of the operation's delete-link action.
    LinkAddAddress,
    /// The previous action named in the header of the operation's action.
    PrevAction,
}

/// Work that validation asks of its environment. Every request but
/// `ConvertRecordEntry` may fail; such a failure ends validation with the
/// same error.
#[derive(Clone, Copy, Debug, PartialEq, Eq)]
pub enum Request {
    /// `must_get_action` at the target.
    GetAction(Target),
    /// `must_get_valid_record` at the target.
    GetValidRecord(Target),
    /// Convert the record just fetched into an entry of the given type,
    /// reporting the conversion error as debug text.
    ConvertRecordEntry(UnitEntryTypes),
    /// Read the app entry of the given type from the record just fetched.
    ReadRecordEntry(UnitEntryTypes),
    /// Deserialize the entry of the record just fetched as one of this
    /// zome's entry types, by the app entry type of its action.
    DeserializeEntry,
    /// Find which of this zome's link types the create-link action of the
    /// record just fetched has.
    ResolveLinkType,
    /// Call a validator and report whether it answered `Valid`.
    CallValidator(ValidatorCall),
}

/// A point where validation waits for the answer to a request.
#[derive(Clone, Copy, Debug, PartialEq, Eq)]
pub enum Pending {
    /// An entry update: waiting for the original action.
    UpdateOriginalAction { entry: UnitEntryTypes },
    /// An entry update: waiting for the original record.
    UpdateOriginalRecord { entry: UnitEntryTypes },
    /// An entry update: waiting for the original record's conversion.
    UpdateOriginalEntry { entry: UnitEntryTypes },
    /// An entry delete: waiting for the original record.
    DeleteOriginalRecord,
    /// A delete: waiting for the deleted entry's deserialization.
    DeletedEntry,
    /// A record update: waiting for the original record.
    RecordUpdateOriginal { entry: UnitEntryTypes },
    /// A record update: waiting for the create validator's answer.
    RecordUpdateRecheck { entry: UnitEntryTypes },
    /// A record update: waiting for the original app entry.
    RecordUpdateOriginalEntry { entry: UnitEntryTypes },
    /// A record delete: waiting for the original record.
    RecordDeleteOriginal,
    /// A record link delete: waiting for the create-link record.
    DeleteLinkOriginal,
    /// A record link delete: waiting for the link type.
    DeletedLinkType,
    /// An agent creation: waiting for the previous action.
    AgentPreviousAction,
}

/// The result of converting a record into an entry of a given type.
#[derive(Clone, Debug, PartialEq, Eq)]
pub enum Conversion {
    /// The record holds an entry of the type.
    Converted,
    /// The conversion failed; the error's debug text.
    Failed(String),
}

/// The answer to a request.
#[derive(Clone, Debug, PartialEq, Eq)]
pub enum Event {
    /// The request returned an error.
    Failed,
    /// `GetAction` returned an action of this type.
    ActionFetched(ActionType),
    /// `GetValidRecord` returned a record with these facts.
    RecordFetched(RecordFacts),
    /// `ConvertRecordEntry` gave this result.
    EntryConverted(Conversion),
    /// `ReadRecordEntry` found an app entry of the type (`true`) or none.
    EntryRead(bool),
    /// `DeserializeEntry` gave an entry of this type, or none of this zome.
    EntryDeserialized(Option<UnitEntryTypes>),
    /// `ResolveLinkType` gave a link type of this zome, or none.
    LinkTypeResolved(Option<LinkTypes>),
    /// `CallValidator` answered `Valid` (`true`) or something else.
    ValidatorReturned(bool),
}

/// How validation of an operation ends.
#[derive(Clone, Debug, PartialEq, Eq)]
pub enum Outcome {
    /// The operation is valid.
    Valid,
    /// The operation is invalid, with this reason.
    Invalid(InvalidReason),
    /// The answer is whatever this validator returns.
    Delegate(ValidatorCall),
    /// The answer is the non-`Valid` answer of the validator just called.
    ValidatorVerdict,
    /// Validation fails with an error.
    Fail(Failure),
}

/// What validation does next: end, or wait for the answer to a request.
#[derive(Clone, Debug, PartialEq, Eq)]
pub enum Step {
    Done(Outcome),
    Await(Pending),
}

impl Pending {
    /// The request that validation waits on at this point.
    pub open spec fn spec_request(self) -> Request {
        match self {
            Pending::UpdateOriginalAction { .. } => Request::GetAction(Target::OriginalActionAddress),
            Pending::UpdateOriginalRecord { .. } => Request::GetValidRecord(Target::OriginalActionAddress),
            Pending::UpdateOriginalEntry { entry } => Request::ConvertRecordEntry(entry),
            Pending::DeleteOriginalRecord => Request::GetValidRecord(Target::DeletesAddress),
            Pending::DeletedEntry => Request::DeserializeEntry,
            Pending::RecordUpdateOriginal { .. } => Request::GetValidRecord(Target::OriginalActionAddress),
            Pending::RecordUpdateRecheck { entry } =>
                Request::CallValidator(ValidatorCall::CreateEntry { entry, creation: Creation::Update }),
            Pending::RecordUpdateOriginalEntry { entry } => Request::ReadRecordEntry(entry),
            Pending::RecordDeleteOriginal => Request::GetValidRecord(Target::DeletesAddress),
            Pending::DeleteLinkOriginal => Request::GetValidRecord(Target::LinkAddAddress),
            Pending::DeletedLinkType => Request::ResolveLinkType,
            Pending::AgentPreviousAction => Request::GetAction(Target::PrevAction),
        }
    }

    /// The request that validation waits on at this point.
    pub fn request(&self) -> (r: Request)
        ensures
            r == self.spec_request(),
    {
        match self {
            Pending::UpdateOriginalAction { .. } => Request::GetAction(Target::OriginalActionAddress),
            Pending::UpdateOriginalRecord { .. } => Request::GetValidRecord(Target::OriginalActionAddress),
            Pending::UpdateOriginalEntry { entry } => Request::ConvertRecordEntry(*entry),
            Pending::DeleteOriginalRecord => Request::GetValidRecord(Target::DeletesAddress),
            Pending::DeletedEntry => Request::DeserializeEntry,
            Pending::RecordUpdateOriginal { .. } => Request::GetValidRecord(Target::OriginalActionAddress),
            Pending::RecordUpdateRecheck { entry } =>
                Request::CallValidator(ValidatorCall::CreateEntry { entry: *entry, creation: Creation::Update }),
            Pending::RecordUpdateOriginalEntry { entry } => Request::ReadRecordEntry(*entry),
            Pending::RecordDeleteOriginal => Request::GetValidRecord(Target::DeletesAddress),
            Pending::DeleteLinkOriginal => Request::GetValidRecord(Target::LinkAddAddress),
            Pending::DeletedLinkType => Request::ResolveLinkType,
            Pending::AgentPreviousAction => Request::GetAction(Target::PrevAction),
        }
    }

    /// The most requests that validation may still make from this point,
    /// the one it waits on included.
    pub open spec fn requests_left(self) -> nat {
        match self {
            Pending::UpdateOriginalAction { .. } => 3,
            Pending::UpdateOriginalRecord { .. } => 2,
            Pending::UpdateOriginalEntry { .. } => 1,
            Pending::DeleteOriginalRecord => 2,
            Pending::DeletedEntry => 1,
            Pending::RecordUpdateOriginal { .. } => 3,
            Pending::RecordUpdateRecheck { .. } => 2,
            Pending::RecordUpdateOriginalEntry { .. } => 1,
            Pending::RecordDeleteOriginal => 2,
            Pending::DeleteLinkOriginal => 2,
            Pending::DeletedLinkType => 1,
            Pending::AgentPreviousAction => 1,
        }
    }

    /// Whether `event` answers the request that validation waits on here.
    pub open spec fn accepts(self, event: Event) -> bool {
        match self.spec_request() {
            Request::GetAction(_) => event is Failed || event is ActionFetched,
            Request::GetValidRecord(_) => event is Failed || (event matches Event::RecordFetched(f) && f.wf()),
            Request::ConvertRecordEntry(_) => event is EntryConverted,
            Request::ReadRecordEntry(_) => event is Failed || event is EntryRead,
            Request::DeserializeEntry => event is Failed || event is EntryDeserialized,
            Request::ResolveLinkType => event is Failed || event is LinkTypeResolved,
            Request::CallValidator(_) => event is Failed || event is ValidatorReturned,
        }
    }
}

/// The delete-link validator call for a link delete found in the record
/// authority's operation: the original action is the fetched create-link
/// action, the base address is the delete action's own, and the target
/// address and tag are the create-link action's.
pub open spec fn record_delete_link_call(link_type: LinkTypes) -> ValidatorCall {
    ValidatorCall::DeleteLink {
        link_type,
        original_action: LinkSource::FetchedRecord,
        base: LinkSource::OpAction,
        target_and_tag: LinkSource::FetchedRecord,
    }
}

/// The delete-link validator call for a link operation: everything but the
/// delete action itself comes from the create-link action the operation carries.
pub open spec fn op_delete_link_call(link_type: LinkTypes) -> ValidatorCall {
    ValidatorCall::DeleteLink {
        link_type,
        original_action: LinkSource::OpOriginalAction,
        base: LinkSource::OpOriginalAction,
        target_and_tag: LinkSource::OpOriginalAction,
    }
}

/// The first decision of validation on a flattened operation.
pub open spec fn first_step(op: FlatOp) -> Step {
    match op {
        FlatOp::CreateEntry(OpEntry::CreateEntry { app_entry }) =>
            Step::Done(Outcome::Delegate(ValidatorCall::CreateEntry { entry: app_entry, creation: Creation::Create })),
        FlatOp::CreateEntry(OpEntry::UpdateEntry { app_entry }) =>
            Step::Done(Outcome::Delegate(ValidatorCall::CreateEntry { entry: app_entry, creation: Creation::Update })),
        FlatOp::CreateEntry(OpEntry::Other) => Step::Done(Outcome::Valid),
        FlatOp::Update(OpUpdate::Entry { app_entry }) =>
            Step::Await(Pending::UpdateOriginalAction { entry: app_entry }),
        FlatOp::Update(OpUpdate::Other) => Step::Done(Outcome::Valid),
        FlatOp::Delete => Step::Await(Pending::DeleteOriginalRecord),
        FlatOp::Link(OpLink::CreateLink { link_type }) =>
            Step::Done(Outcome::Delegate(ValidatorCall::CreateLink { link_type })),
        FlatOp::Link(OpLink::DeleteLink { link_type }) =>
            Step::Done(Outcome::Delegate(op_delete_link_call(link_type))),
        FlatOp::CreateRecord(OpRecord::CreateEntry { app_entry }) =>
            Step::Done(Outcome::Delegate(ValidatorCall::CreateEntry { entry: app_entry, creation: Creation::Create })),
        FlatOp::CreateRecord(OpRecord::UpdateEntry { app_entry }) =>
            Step::Await(Pending::RecordUpdateOriginal { entry: app_entry }),
        FlatOp::CreateRecord(OpRecord::DeleteEntry) => Step::Await(Pending::RecordDeleteOriginal),
        FlatOp::CreateRecord(OpRecord::CreateLink { link_type }) =>
            Step::Done(Outcome::Delegate(ValidatorCall::CreateLink { link_type })),
        FlatOp::CreateRecord(OpRecord::DeleteLink) => Step::Await(Pending::DeleteLinkOriginal),
        FlatOp::CreateRecord(OpRecord::Other) => Step::Done(Outcome::Valid),
        FlatOp::AgentActivity(OpActivity::CreateAgent { has_prev_action }) =>
            if has_prev_action {
                Step::Await(Pending::AgentPreviousAction)
            } else {
                Step::Done(Outcome::Fail(Failure::NoPriorAction))
            },
        FlatOp::AgentActivity(OpActivity::Other) => Step::Done(Outcome::Valid),
    }
}

/// The decision after an entry delete has fetched the original record.
pub open spec fn after_deleted_record(f: RecordFacts) -> Step {
    if !creates_entry(f.action_type) {
        Step::Done(Outcome::Invalid(InvalidReason::OriginalNotEntryCreation(f.action_type)))
    } else if !(f.entry_type matches Some(EntryTypeKind::App { .. })) {
        Step::Done(Outcome::Valid)
    } else if !f.entry_present {
        Step::Done(Outcome::Invalid(InvalidReason::DeletedRecordWithoutEntry))
    } else {
        Step::Await(Pending::DeletedEntry)
    }
}

/// The decision after a record delete has fetched the original record.
pub open spec fn after_record_deleted_record(f: RecordFacts) -> Step {
    if !creates_entry(f.action_type) {
        Step::Done(Outcome::Invalid(InvalidReason::DeleteOfNonEntryAction))
    } else {
        match f.entry_type {
            Some(EntryTypeKind::App { public }) =>
                if f.entry_present {
                    Step::Await(Pending::DeletedEntry)
                } else if public {
                    Step::Done(Outcome::Invalid(InvalidReason::DeletedPublicRecordWithoutEntry))
                } else {
                    Step::Done(Outcome::Valid)
                },
            _ => Step::Done(Outcome::Valid),
        }
    }
}

/// The step that passes on the error of the request just made.
pub open spec fn propagate() -> Step {
    Step::Done(Outcome::Fail(Failure::Propagated))
}

/// The decision of validation when `state`'s request is answered by
/// `event`. A `Failed` answer always passes the error on; only answers that
/// `state.accepts` are meaningful.
pub open spec fn next_step(state: Pending, event: Event) -> Step {
    match state {
        Pending::UpdateOriginalAction { entry } => match event {
            Event::ActionFetched(t) =>
                if creates_entry(t) {
                    Step::Await(Pending::UpdateOriginalRecord { entry })
                } else {
                    Step::Done(Outcome::Invalid(InvalidReason::OriginalNotEntryCreation(t)))
                },
            _ => propagate(),
        },
        Pending::UpdateOriginalRecord { entry } => match event {
            Event::RecordFetched(_) => Step::Await(Pending::UpdateOriginalEntry { entry }),
            _ => propagate(),
        },
        Pending::UpdateOriginalEntry { entry } => match event {
            Event::EntryConverted(Conversion::Converted) =>
                Step::Done(Outcome::Delegate(ValidatorCall::UpdateEntry {
                    entry,
                    original_action: OriginalAction::FetchedAction,
                    original_entry: OriginalEntry::ConvertedRecord,
                })),
            Event::EntryConverted(Conversion::Failed(detail)) =>
                Step::Done(Outcome::Invalid(InvalidReason::OriginalNotOfType { entry, detail })),
            _ => propagate(),
        },
        Pending::DeleteOriginalRecord => match event {
            Event::RecordFetched(f) => after_deleted_record(f),
            _ => propagate(),
        },
        Pending::DeletedEntry => match event {
            Event::EntryDeserialized(Some(entry)) =>
                Step::Done(Outcome::Delegate(ValidatorCall::DeleteEntry { entry })),
            Event::EntryDeserialized(None) => Step::Done(Outcome::Invalid(InvalidReason::UnknownEntryType)),
            _ => propagate(),
        },
        Pending::RecordUpdateOriginal { entry } => match event {
            Event::RecordFetched(f) =>
                if creates_entry(f.action_type) {
                    Step::Await(Pending::RecordUpdateRecheck { entry })
                } else {
                    Step::Done(Outcome::Invalid(InvalidReason::UpdateOfNonEntryAction))
                },
            _ => propagate(),
        },
        Pending::RecordUpdateRecheck { entry } => match event {
            Event::ValidatorReturned(true) => Step::Await(Pending::RecordUpdateOriginalEntry { entry }),
            Event::ValidatorReturned(false) => Step::Done(Outcome::ValidatorVerdict),
            _ => propagate(),
        },
        Pending::RecordUpdateOriginalEntry { entry } => match event {
            Event::EntryRead(true) => Step::Done(Outcome::Delegate(ValidatorCall::UpdateEntry {
                entry,
                original_action: OriginalAction::FetchedRecord,
                original_entry: OriginalEntry::RecordAppEntry,
            })),
            Event::EntryRead(false) => Step::Done(Outcome::Invalid(InvalidReason::EntryTypeChanged)),
            _ => propagate(),
        },
        Pending::RecordDeleteOriginal => match event {
            Event::RecordFetched(f) => after_record_deleted_record(f),
            _ => propagate(),
        },
        Pending::DeleteLinkOriginal => match event {
            Event::RecordFetched(f) =>
                if f.action_type == ActionType::CreateLink {
                    Step::Await(Pending::DeletedLinkType)
                } else {
                    Step::Done(Outcome::Invalid(InvalidReason::DeleteLinkOfNonCreateLink))
                },
            _ => propagate(),
        },
        Pending::DeletedLinkType => match event {
            Event::LinkTypeResolved(Some(link_type)) =>
                Step::Done(Outcome::Delegate(record_delete_link_call(link_type))),
            Event::LinkTypeResolved(None) => Step::Done(Outcome::Valid),
            _ => propagate(),
        },
        Pending::AgentPreviousAction => match event {
            Event::ActionFetched(t) =>
                if t == ActionType::AgentValidationPkg {
                    Step::Done(agent_joining_outcome())
                } else {
                    Step::Done(Outcome::Invalid(InvalidReason::CreateAgentWithoutValidationPkg))
                },
            _ => propagate(),
        },
    }
}

/// What the agent-joining check answers: every agent may join.
pub open spec fn agent_joining_outcome() -> Outcome {
    Outcome::Valid
}

/// The first decision of validation on a flattened operation: an outcome
/// for operations that need nothing more, or the first request.
pub fn validate(op: &FlatOp) -> (step: Step)
    ensures
        step == first_step(*op),
{
    match op {
        FlatOp::CreateEntry(OpEntry::CreateEntry { app_entry }) =>
            Step::Done(Outcome::Delegate(ValidatorCall::CreateEntry { entry: *app_entry, creation: Creation::Create })),
        FlatOp::CreateEntry(OpEntry::UpdateEntry { app_entry }) =>
            Step::Done(Outcome::Delegate(ValidatorCall::CreateEntry { entry: *app_entry, creation: Creation::Update })),
        FlatOp::CreateEntry(OpEntry::Other) => Step::Done(Outcome::Valid),
        FlatOp::Update(OpUpdate::Entry { app_entry }) =>
            Step::Await(Pending::UpdateOriginalAction { entry: *app_entry }),
        FlatOp::Update(OpUpdate::Other) => Step::Done(Outcome::Valid),
        FlatOp::Delete => Step::Await(Pending::DeleteOriginalRecord),
        FlatOp::Link(OpLink::CreateLink { link_type }) =>
            Step::Done(Outcome::Delegate(ValidatorCall::CreateLink { link_type: *link_type })),
        FlatOp::Link(OpLink::DeleteLink { link_type }) =>
            Step::Done(Outcome::Delegate(ValidatorCall::DeleteLink {
                link_type: *link_type,
                original_action: LinkSource::OpOriginalAction,
                base: LinkSource::OpOriginalAction,
                target_and_tag: LinkSource::OpOriginalAction,
            })),
        FlatOp::CreateRecord(OpRecord::CreateEntry { app_entry }) =>
            Step::Done(Outcome::Delegate(ValidatorCall::CreateEntry { entry: *app_entry, creation: Creation::Create })),
        FlatOp::CreateRecord(OpRecord::UpdateEntry { app_entry }) =>
            Step::Await(Pending::RecordUpdateOriginal { entry: *app_entry }),
        FlatOp::CreateRecord(OpRecord::DeleteEntry) => Step::Await(Pending::RecordDeleteOriginal),
        FlatOp::CreateRecord(OpRecord::CreateLink { link_type }) =>
            Step::Done(Outcome::Delegate(ValidatorCall::CreateLink { link_type: *link_type })),
        FlatOp::CreateRecord(OpRecord::DeleteLink) => Step::Await(Pending::DeleteLinkOriginal),
        FlatOp::CreateRecord(OpRecord::Other) => Step::Done(Outcome::Valid),
        FlatOp::AgentActivity(OpActivity::CreateAgent { has_prev_action }) =>
            if *has_prev_action {
                Step::Await(Pending::AgentPreviousAction)
            } else {
                Step::Done(Outcome::Fail(Failure::NoPriorAction))
            },
        FlatOp::AgentActivity(OpActivity::Other) => Step::Done(Outcome::Valid),
    }
}

/// The decision of validation when the request it waits on at `state` is
/// answered by `event`.
pub fn resume(state: Pending, event: Event) -> (step: Step)
    requires
        state.accepts(event),
    ensures
        step == next_step(state, event),
{
    match state {
        Pending::UpdateOriginalAction { entry } => match event {
            Event::ActionFetched(t) =>
                if is_entry_creation(t) {
                    Step::Await(Pending::UpdateOriginalRecord { entry })
                } else {
                    Step::Done(Outcome::Invalid(InvalidReason::OriginalNotEntryCreation(t)))
                },
            _ => Step::Done(Outcome::Fail(Failure::Propagated)),
        },
        Pending::UpdateOriginalRecord { entry } => match event {
            Event::RecordFetched(_) => Step::Await(Pending::UpdateOriginalEntry { entry }),
            _ => Step::Done(Outcome::Fail(Failure::Propagated)),
        },
        Pending::UpdateOriginalEntry { entry } => match event {
            Event::EntryConverted(Conversion::Converted) =>
                Step::Done(Outcome::Delegate(ValidatorCall::UpdateEntry {
                    entry,
                    original_action: OriginalAction::FetchedAction,
                    original_entry: OriginalEntry::ConvertedRecord,
                })),
            Event::EntryConverted(Conversion::Failed(detail)) =>
                Step::Done(Outcome::Invalid(InvalidReason::OriginalNotOfType { entry, detail })),
            _ => Step::Done(Outcome::Fail(Failure::Propagated)),
        },
        Pending::DeleteOriginalRecord => match event {
            Event::RecordFetched(f) =>
                if !is_entry_creation(f.action_type) {
                    Step::Done(Outcome::Invalid(InvalidReason::OriginalNotEntryCreation(f.action_type)))
                } else {
                    match f.entry_type {
                        Some(EntryTypeKind::App { .. }) =>
                            if !f.entry_present {
                                Step::Done(Outcome::Invalid(InvalidReason::DeletedRecordWithoutEntry))
                            } else {
                                Step::Await(Pending::DeletedEntry)
                            },
                        _ => Step::Done(Outcome::Valid),
                    }
                },
            _ => Step::Done(Outcome::Fail(Failure::Propagated)),
        },
        Pending::DeletedEntry => match event {
            Event::EntryDeserialized(Some(entry)) =>
                Step::Done(Outcome::Delegate(ValidatorCall::DeleteEntry { entry })),
            Event::EntryDeserialized(None) => Step::Done(Outcome::Invalid(InvalidReason::UnknownEntryType)),
            _ => Step::Done(Outcome::Fail(Failure::Propagated)),
        },
        Pending::RecordUpdateOriginal { entry } => match event {
            Event::RecordFetched(f) =>
                if is_entry_creation(f.action_type) {
                    Step::Await(Pending::RecordUpdateRecheck { entry })
                } else {
                    Step::Done(Outcome::Invalid(InvalidReason::UpdateOfNonEntryAction))
                },
            _ => Step::Done(Outcome::Fail(Failure::Propagated)),
        },
        Pending::RecordUpdateRecheck { entry } => match event {
            Event::ValidatorReturned(valid) =>
                if valid {
                    Step::Await(Pending::RecordUpdateOriginalEntry { entry })
                } else {
                    Step::Done(Outcome::ValidatorVerdict)
                },
            _ => Step::Done(Outcome::Fail(Failure::Propagated)),
        },
        Pending::RecordUpdateOriginalEntry { entry } => match event {
            Event::EntryRead(found) =>
                if found {
                    Step::Done(Outcome::Delegate(ValidatorCall::UpdateEntry {
                        entry,
                        original_action: OriginalAction::FetchedRecord,
                        original_entry: OriginalEntry::RecordAppEntry,
                    }))
                } else {
                    Step::Done(Outcome::Invalid(InvalidReason::EntryTypeChanged))
                },
            _ => Step::Done(Outcome::Fail(Failure::Propagated)),
        },
        Pending::RecordDeleteOriginal => match event {
            Event::RecordFetched(f) =>
                if !is_entry_creation(f.action_type) {
                    Step::Done(Outcome::Invalid(InvalidReason::DeleteOfNonEntryAction))
                } else {
                    match f.entry_type {
                        Some(EntryTypeKind::App { public }) =>
                            if f.entry_present {
                                Step::Await(Pending::DeletedEntry)
                            } else if public {
                                Step::Done(Outcome::Invalid(InvalidReason::DeletedPublicRecordWithoutEntry))
                            } else {
                                Step::Done(Outcome::Valid)
                            },
                        _ => Step::Done(Outcome::Valid),
                    }
                },
            _ => Step::Done(Outcome::Fail(Failure::Propagated)),
        },
        Pending::DeleteLinkOriginal => match event {
            Event::RecordFetched(f) =>
                match f.action_type {
                    ActionType::CreateLink => Step::Await(Pending::DeletedLinkType),
                    _ => Step::Done(Outcome::Invalid(InvalidReason::DeleteLinkOfNonCreateLink)),
                },
            _ => Step::Done(Outcome::Fail(Failure::Propagated)),
        },
        Pending::DeletedLinkType => match event {
            Event::LinkTypeResolved(Some(link_type)) =>
                Step::Done(Outcome::Delegate(ValidatorCall::DeleteLink {
                    link_type,
                    original_action: LinkSource::FetchedRecord,
                    base: LinkSource::OpAction,
                    target_and_tag: LinkSource::FetchedRecord,
                })),
            Event::LinkTypeResolved(None) => Step::Done(Outcome::Valid),
            _ => Step::Done(Outcome::Fail(Failure::Propagated)),
        },
        Pending::AgentPreviousAction => match event {
            Event::ActionFetched(t) =>
                match t {
                    ActionType::AgentValidationPkg => Step::Done(Outcome::Valid),
                    _ => Step::Done(Outcome::Invalid(InvalidReason::CreateAgentWithoutValidationPkg)),
                },
            _ => Step::Done(Outcome::Fail(Failure::Propagated)),
        },
    }
}

/// Validation that an agent runs on its own chain during genesis: it
/// accepts everything.
pub fn genesis_self_check<D>(_data: D) -> (outcome: Outcome)
    ensures
        outcome == Outcome::Valid,
{
    Outcome::Valid
}

/// Validation of an agent joining the network, given its key and its
/// membrane proof: every agent may join.
pub fn validate_agent_joining<A, M>(_agent_pub_key: A, _membrane_proof: &Option<M>) -> (outcome: Outcome)
    ensures
        outcome == agent_joining_outcome(),
        outcome == Outcome::Valid,
{
    Outcome::Valid
}

/// Whether an action of this type creates an entry.
pub fn is_entry_creation(t: ActionType) -> (b: bool)
    ensures
        b == creates_entry(t),
{
    match t {
        ActionType::Create | ActionType::Update => true,
        _ => false,
    }
}

} // verus!
