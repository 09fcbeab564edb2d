use vstd::prelude::*;
use vstd::string::*;

use crate::model::{ActionType, UnitEntryTypes};

verus! {

/// Why an operation is invalid. Each reason has a fixed message text
/// (`reason_text`), which `InvalidReason::message` produces.
#[derive(Clone, Debug, PartialEq, Eq)]
pub enum InvalidReason {
    /// The action an update or delete refers to, fetched as a record or
    /// an action, neither creates nor updates an entry; it has this type.
    OriginalNotEntryCreation(ActionType),
    /// The record an update refers to does not hold an entry of the updated
    /// entry's type; `detail` is the conversion error, as debug text.
    OriginalNotOfType { entry: UnitEntryTypes, detail: String },
    /// The record a delete refers to carries no entry.
    DeletedRecordWithoutEntry,
    /// The deleted entry is not one of this zome's entry types.
    UnknownEntryType,
    /// The action a record update refers to neither creates nor updates an entry.
    UpdateOfNonEntryAction,
    /// The original entry of a record update has another type than the new one.
    EntryTypeChanged,
    /// The action a record delete refers to neither creates nor updates an entry.
    DeleteOfNonEntryAction,
    /// The record a delete of a public entry refers to carries no entry.
    DeletedPublicRecordWithoutEntry,
    /// The action a link delete refers to is not a `CreateLink`.
    DeleteLinkOfNonCreateLink,
    /// The action before a `CreateAgent` is not an `AgentValidationPkg`.
    CreateAgentWithoutValidationPkg,
}

/// The name of an action type, as its debug text shows it.
pub open spec fn action_type_name(t: ActionType) -> Seq<char> {
    match t {
        ActionType::Dna => "Dna"@,
        ActionType::AgentValidationPkg => "AgentValidationPkg"@,
        ActionType::InitZomesComplete => "InitZomesComplete"@,
        ActionType::Create => "Create"@,
        ActionType::Update => "Update"@,
        ActionType::Delete => "Delete"@,
        ActionType::CreateLink => "CreateLink"@,
        ActionType::DeleteLink => "DeleteLink"@,
        ActionType::CloseChain => "CloseChain"@,
        ActionType::OpenChain => "OpenChain"@,
    }
}

/// The name of an entry type.
pub open spec fn entry_type_name(e: UnitEntryTypes) -> Seq<char> {
    match e {
        UnitEntryTypes::Post => "Post"@,
        UnitEntryTypes::Comment => "Comment"@,
    }
}

/// The message of an invalid operation.
pub open spec fn reason_text(r: InvalidReason) -> Seq<char> {
    match r {
        InvalidReason::OriginalNotEntryCreation(t) =>
            "Expected original action to create an entry: WrongActionError(\"Expected a Create or Update action, got "@
                + action_type_name(t) + "\")"@,
        InvalidReason::OriginalNotOfType { entry, detail } =>
            "Expected to get "@ + entry_type_name(entry) + " from Record: "@ + detail@,
        InvalidReason::DeletedRecordWithoutEntry =>
            "Original record for a delete must contain an entry"@,
        InvalidReason::UnknownEntryType =>
            "Original app entry must be one of the defined entry types for this zome"@,
        InvalidReason::UpdateOfNonEntryAction =>
            "Original action for an update must be a Create or Update action"@,
        InvalidReason::EntryTypeChanged =>
            "The updated entry type must be the same as the original entry type"@,
        InvalidReason::DeleteOfNonEntryAction =>
            "Original action for a delete must be a Create or Update action"@,
        InvalidReason::DeletedPublicRecordWithoutEntry =>
            "Original record for a delete of a public entry must contain an entry"@,
        InvalidReason::DeleteLinkOfNonCreateLink =>
            "The action that a DeleteLink deletes must be a CreateLink"@,
        InvalidReason::CreateAgentWithoutValidationPkg =>
            "The previous action for a `CreateAgent` action must be an `AgentValidationPkg`"@,
    }
}

/// The name of an action type, as its debug text shows it.
pub fn action_type_str(t: ActionType) -> (s: &'static str)
    ensures
        s@ == action_type_name(t),
{
    match t {
        ActionType::Dna => "Dna",
        ActionType::AgentValidationPkg => "AgentValidationPkg",
        ActionType::InitZomesComplete => "InitZomesComplete",
        ActionType::Create => "Create",
        ActionType::Update => "Update",
        ActionType::Delete => "Delete",
        ActionType::CreateLink => "CreateLink",
        ActionType::DeleteLink => "DeleteLink",
        ActionType::CloseChain => "CloseChain",
        ActionType::OpenChain => "OpenChain",
    }
}

/// The name of an entry type.
pub fn entry_type_str(e: UnitEntryTypes) -> (s: &'static str)
    ensures
        s@ == entry_type_name(e),
{
    match e {
        UnitEntryTypes::Post => "Post",
        UnitEntryTypes::Comment => "Comment",
    }
}

impl InvalidReason {
    /// The message that the validation callback returns for this reason.
    pub fn message(&self) -> (m: String)
        ensures
            m@ == reason_text(*self),
    {
        match self {
            InvalidReason::OriginalNotEntryCreation(t) => {
                let m = "Expected original action to create an entry: WrongActionError(\"Expected a Create or Update action, got ".to_owned();
                let m = m.concat(action_type_str(*t));
                m.concat("\")")
            },
            InvalidReason::OriginalNotOfType { entry, detail } => {
                let m = "Expected to get ".to_owned();
                let m = m.concat(entry_type_str(*entry));
                let m = m.concat(" from Record: ");
                m.concat(detail.as_str())
            },
            InvalidReason::DeletedRecordWithoutEntry =>
                "Original record for a delete must contain an entry".to_owned(),
            InvalidReason::UnknownEntryType =>
                "Original app entry must be one of the defined entry types for this zome".to_owned(),
            InvalidReason::UpdateOfNonEntryAction =>
                "Original action for an update must be a Create or Update action".to_owned(),
            InvalidReason::EntryTypeChanged =>
                "The updated entry type must be the same as the original entry type".to_owned(),
            InvalidReason::DeleteOfNonEntryAction =>
                "Original action for a delete must be a Create or Update action".to_owned(),
            InvalidReason::DeletedPublicRecordWithoutEntry =>
                "Original record for a delete of a public entry must contain an entry".to_owned(),
            InvalidReason::DeleteLinkOfNonCreateLink =>
                "The action that a DeleteLink deletes must be a CreateLink".to_owned(),
            InvalidReason::CreateAgentWithoutValidationPkg =>
                "The previous action for a `CreateAgent` action must be an `AgentValidationPkg`".to_owned(),
        }
    }
}

/// Why validation fails with an error rather than a verdict.
#[derive(Clone, Copy, Debug, PartialEq, Eq)]
pub enum Failure {
    /// The request just made returned an error, which validation passes on.
    Propagated,
    /// A `CreateAgent` action names no previous action; validation fails
    /// with a guest error of the text `no_prior_action_text`.
    NoPriorAction,
}

/// The guest error text of a failure that validation raises itself.
pub open spec fn no_prior_action_text() -> Seq<char> {
    "expected a prior action before CreateAgent"@
}

/// The guest error text of a `NoPriorAction` failure.
pub fn no_prior_action_message() -> (m: String)
    ensures
        m@ == no_prior_action_text(),
{
    "expected a prior action before CreateAgent".to_owned()
}

} // verus!
