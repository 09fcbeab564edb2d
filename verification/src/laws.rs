use vstd::prelude::*;

use crate::model::{
    creates_entry, ActionType, EntryTypeKind, FlatOp, LinkTypes, OpActivity, OpEntry, OpLink, OpRecord,
    OpUpdate, RecordFacts, UnitEntryTypes,
};
use crate::reasons::{action_type_name, entry_type_name, no_prior_action_text, reason_text, Failure, InvalidReason};
use crate::validation::{
    first_step, next_step, Conversion, Creation, Event, LinkSource, OriginalAction, OriginalEntry, Outcome,
    Pending, Request, Step, Target, ValidatorCall,
};

verus! {

/// The step reached from `step` when the requests it waits on are answered
/// by `answers`, in order; answers left over once validation is done are
/// not read.
pub open spec fn run(step: Step, answers: Seq<Event>) -> Step
    decreases answers.len(),
{
    if answers.len() == 0 {
        step
    } else {
        match step {
            Step::Done(_) => step,
            Step::Await(s) => run(next_step(s, answers[0]), answers.drop_first()),
        }
    }
}

/// Whether every answer that `run(step, answers)` reads answers the request
/// it is given to.
pub open spec fn answers_fit(step: Step, answers: Seq<Event>) -> bool
    decreases answers.len(),
{
    if answers.len() == 0 {
        true
    } else {
        match step {
            Step::Done(_) => true,
            Step::Await(s) => s.accepts(answers[0]) && answers_fit(next_step(s, answers[0]), answers.drop_first()),
        }
    }
}

/// Every answer validation accepts either ends it or leads to a point from
/// which fewer requests are left; at most three are ever left.
pub proof fn lemma_requests_left_decrease(state: Pending, event: Event)
    requires
        state.accepts(event),
    ensures
        1 <= state.requests_left() <= 3,
        next_step(state, event) matches Step::Await(s) ==> s.requests_left() < state.requests_left(),
{
}

/// Validation waits on at most three requests after its first decision.
pub proof fn lemma_first_step_requests_left(op: FlatOp)
    ensures
        first_step(op) matches Step::Await(s) ==> s.requests_left() <= 3,
{
}

/// From a point with `n` requests left, `n` fitting answers end validation.
pub proof fn lemma_run_done_within(state: Pending, answers: Seq<Event>)
    requires
        answers_fit(Step::Await(state), answers),
        answers.len() >= state.requests_left(),
    ensures
        run(Step::Await(state), answers) is Done,
    decreases answers.len(),
{
    lemma_requests_left_decrease(state, answers[0]);
    let next = next_step(state, answers[0]);
    match next {
        Step::Done(_) => {
            if answers.len() > 1 {
                assert(run(next, answers.drop_first()) == next);
            } else {
                assert(answers.drop_first().len() == 0);
            }
        },
        Step::Await(s) => {
            lemma_run_done_within(s, answers.drop_first());
        },
    }
}

/// Validation of any operation ends after at most three requests: given
/// three answers (or more) that fit the requests made, it is done.
pub proof fn lemma_at_most_three_requests(op: FlatOp, answers: Seq<Event>)
    requires
        answers_fit(first_step(op), answers),
        answers.len() >= 3,
    ensures
        run(first_step(op), answers) is Done,
{
    match first_step(op) {
        Step::Done(_) => {},
        Step::Await(s) => {
            lemma_first_step_requests_left(op);
            lemma_run_done_within(s, answers);
        },
    }
}

/// Whether validation of the operation needs anything from the DHT.
pub open spec fn needs_dependencies(op: FlatOp) -> bool {
    match op {
        FlatOp::Update(OpUpdate::Entry { .. }) => true,
        FlatOp::Delete => true,
        FlatOp::CreateRecord(OpRecord::UpdateEntry { .. }) => true,
        FlatOp::CreateRecord(OpRecord::DeleteEntry) => true,
        FlatOp::CreateRecord(OpRecord::DeleteLink) => true,
        FlatOp::AgentActivity(OpActivity::CreateAgent { has_prev_action }) => has_prev_action,
        _ => false,
    }
}

/// Validation makes a request exactly for the operations that depend on
/// other records: updates and deletes of entries, link deletes seen by the
/// record authority, and agent creations that name a previous action.
pub proof fn lemma_requests_only_for_dependencies(op: FlatOp)
    ensures
        first_step(op) is Await <==> needs_dependencies(op),
{
}

/// A failed request ends validation with its error, whichever request it
/// was; every request but the record conversion of an entry update may fail.
pub proof fn lemma_failure_propagates(state: Pending)
    ensures
        state.accepts(Event::Failed) <==> !(state is UpdateOriginalEntry),
        state.accepts(Event::Failed) ==> next_step(state, Event::Failed) == Step::Done(Outcome::Fail(Failure::Propagated)),
{
}

/// A created entry is judged by the same validator, given the same create
/// action, whether the entry authority or the record authority validates it.
pub proof fn lemma_create_entry_authorities_agree(entry: UnitEntryTypes)
    ensures
        first_step(FlatOp::CreateEntry(OpEntry::CreateEntry { app_entry: entry }))
            == first_step(FlatOp::CreateRecord(OpRecord::CreateEntry { app_entry: entry })),
        first_step(FlatOp::CreateEntry(OpEntry::CreateEntry { app_entry: entry }))
            == Step::Done(Outcome::Delegate(ValidatorCall::CreateEntry { entry, creation: Creation::Create })),
{
}

/// A created link is judged by the same validator whether the link
/// authority or the record authority validates it.
pub proof fn lemma_create_link_authorities_agree(link_type: LinkTypes)
    ensures
        first_step(FlatOp::Link(OpLink::CreateLink { link_type }))
            == first_step(FlatOp::CreateRecord(OpRecord::CreateLink { link_type })),
        first_step(FlatOp::Link(OpLink::CreateLink { link_type }))
            == Step::Done(Outcome::Delegate(ValidatorCall::CreateLink { link_type })),
{
}

/// An entry delete and a record delete decide alike on an original record
/// that creates an app entry and carries it (both go on to deserialize the
/// entry), and on one whose entry type is not an app type (both are valid).
pub proof fn lemma_delete_authorities_agree(f: RecordFacts)
    requires
        f.wf(),
        creates_entry(f.action_type),
        f.entry_present || !(f.entry_type matches Some(EntryTypeKind::App { .. })),
    ensures
        next_step(Pending::DeleteOriginalRecord, Event::RecordFetched(f))
            == next_step(Pending::RecordDeleteOriginal, Event::RecordFetched(f)),
{
}

/// Operations that concern no entry or link of this zome, and updates of
/// entries that are not this zome's public entries, are valid without any
/// check.
pub proof fn lemma_foreign_operations_valid()
    ensures
        first_step(FlatOp::CreateEntry(OpEntry::Other)) == Step::Done(Outcome::Valid),
        first_step(FlatOp::Update(OpUpdate::Other)) == Step::Done(Outcome::Valid),
        first_step(FlatOp::CreateRecord(OpRecord::Other)) == Step::Done(Outcome::Valid),
        first_step(FlatOp::AgentActivity(OpActivity::Other)) == Step::Done(Outcome::Valid),
{
}

/// The type of the new entry of an operation that creates or updates an
/// app entry of this zome.
pub open spec fn new_entry_type(op: FlatOp) -> Option<UnitEntryTypes> {
    match op {
        FlatOp::CreateEntry(OpEntry::CreateEntry { app_entry }) => Some(app_entry),
        FlatOp::CreateEntry(OpEntry::UpdateEntry { app_entry }) => Some(app_entry),
        FlatOp::Update(OpUpdate::Entry { app_entry }) => Some(app_entry),
        FlatOp::CreateRecord(OpRecord::CreateEntry { app_entry }) => Some(app_entry),
        FlatOp::CreateRecord(OpRecord::UpdateEntry { app_entry }) => Some(app_entry),
        _ => None,
    }
}

/// The entry type that a create or update validator call judges.
pub open spec fn judged_new_entry(call: ValidatorCall) -> Option<UnitEntryTypes> {
    match call {
        ValidatorCall::CreateEntry { entry, .. } => Some(entry),
        ValidatorCall::UpdateEntry { entry, .. } => Some(entry),
        _ => None,
    }
}

/// The new entry type that validation carries at a point of an update.
pub open spec fn carried_entry(state: Pending) -> Option<UnitEntryTypes> {
    match state {
        Pending::UpdateOriginalAction { entry } => Some(entry),
        Pending::UpdateOriginalRecord { entry } => Some(entry),
        Pending::UpdateOriginalEntry { entry } => Some(entry),
        Pending::RecordUpdateOriginal { entry } => Some(entry),
        Pending::RecordUpdateRecheck { entry } => Some(entry),
        Pending::RecordUpdateOriginalEntry { entry } => Some(entry),
        _ => None,
    }
}

/// A step is faithful to a new entry type when every create or update
/// validator it calls, now or later, judges that type.
pub open spec fn faithful(step: Step, entry: Option<UnitEntryTypes>) -> bool {
    match step {
        Step::Done(Outcome::Delegate(call)) => judged_new_entry(call) is Some ==> judged_new_entry(call) == entry,
        Step::Done(_) => true,
        Step::Await(s) => carried_entry(s) is Some ==> carried_entry(s) == entry,
    }
}

proof fn lemma_next_step_faithful(state: Pending, event: Event, entry: Option<UnitEntryTypes>)
    requires
        faithful(Step::Await(state), entry),
    ensures
        faithful(next_step(state, event), entry),
{
}

proof fn lemma_run_faithful(step: Step, answers: Seq<Event>, entry: Option<UnitEntryTypes>)
    requires
        faithful(step, entry),
    ensures
        faithful(run(step, answers), entry),
    decreases answers.len(),
{
    if answers.len() > 0 {
        if let Step::Await(s) = step {
            lemma_next_step_faithful(s, answers[0], entry);
            lemma_run_faithful(next_step(s, answers[0]), answers.drop_first(), entry);
        }
    }
}

/// Whatever the DHT answers, a create or update validator that validation
/// hands an operation to is the one for the operation's new entry type, and
/// operations that create or update no app entry never reach one.
pub proof fn lemma_entry_validator_matches_new_entry(op: FlatOp, answers: Seq<Event>, call: ValidatorCall)
    requires
        run(first_step(op), answers) == Step::Done(Outcome::Delegate(call)),
        judged_new_entry(call) is Some,
    ensures
        judged_new_entry(call) == new_entry_type(op),
{
    lemma_run_faithful(first_step(op), answers, new_entry_type(op));
}

/// A record update reaches its update validator only after the original
/// action proved to create an entry, the create validator answered `Valid`
/// for the new entry, and the original record held an app entry of the
/// same type; the update validator then gets the fetched record's action
/// and entry.
pub proof fn lemma_record_update_checks_creation_first(
    entry: UnitEntryTypes,
    answers: Seq<Event>,
    call: ValidatorCall,
)
    requires
        run(first_step(FlatOp::CreateRecord(OpRecord::UpdateEntry { app_entry: entry })), answers)
            == Step::Done(Outcome::Delegate(call)),
    ensures
        answers.len() >= 3,
        answers[0] matches Event::RecordFetched(f) && creates_entry(f.action_type),
        answers[1] == Event::ValidatorReturned(true),
        answers[2] == Event::EntryRead(true),
        call == (ValidatorCall::UpdateEntry {
            entry,
            original_action: crate::validation::OriginalAction::FetchedRecord,
            original_entry: crate::validation::OriginalEntry::RecordAppEntry,
        }),
{
    let s0 = Step::Await(Pending::RecordUpdateOriginal { entry });
    assert(answers.len() > 0);
    let a1 = answers.drop_first();
    let s1 = next_step(Pending::RecordUpdateOriginal { entry }, answers[0]);
    assert(run(s0, answers) == run(s1, a1));
    assert(s1 == Step::Await(Pending::RecordUpdateRecheck { entry }));
    assert(a1.len() > 0);
    let a2 = a1.drop_first();
    let s2 = next_step(Pending::RecordUpdateRecheck { entry }, a1[0]);
    assert(run(s1, a1) == run(s2, a2));
    assert(s2 == Step::Await(Pending::RecordUpdateOriginalEntry { entry }));
    assert(a2.len() > 0);
    let s3 = next_step(Pending::RecordUpdateOriginalEntry { entry }, a2[0]);
    assert(run(s2, a2) == run(s3, a2.drop_first()));
    assert(s3 is Done);
    assert(run(s3, a2.drop_first()) == s3);
}

/// Every new or updated entry of this zome is judged by the create
/// validator of its own type, given the operation's action as a `Create`
/// when it creates the entry and as an `Update` when it updates one;
/// neither authority accepts such an entry without that validator.
pub proof fn lemma_new_entries_reach_their_create_validator(e: UnitEntryTypes)
    ensures
        first_step(FlatOp::CreateEntry(OpEntry::CreateEntry { app_entry: e }))
            == (Step::Done(Outcome::Delegate(ValidatorCall::CreateEntry { entry: e, creation: Creation::Create }))),
        first_step(FlatOp::CreateEntry(OpEntry::UpdateEntry { app_entry: e }))
            == (Step::Done(Outcome::Delegate(ValidatorCall::CreateEntry { entry: e, creation: Creation::Update }))),
        first_step(FlatOp::CreateRecord(OpRecord::CreateEntry { app_entry: e }))
            == (Step::Done(Outcome::Delegate(ValidatorCall::CreateEntry { entry: e, creation: Creation::Create }))),
{
}

/// Updates, deletes, link deletes seen by the record authority, and agent
/// creations that name a previous action start by fetching what they
/// depend on, at the address the operation's action names; an agent
/// creation without a previous action fails with a guest error.
pub proof fn lemma_dependent_operations_fetch_first(e: UnitEntryTypes)
    ensures
        first_step(FlatOp::Update(OpUpdate::Entry { app_entry: e }))
            == (Step::Await(Pending::UpdateOriginalAction { entry: e })),
        (Pending::UpdateOriginalAction { entry: e }).spec_request() == Request::GetAction(Target::OriginalActionAddress),
        first_step(FlatOp::CreateRecord(OpRecord::UpdateEntry { app_entry: e }))
            == (Step::Await(Pending::RecordUpdateOriginal { entry: e })),
        (Pending::RecordUpdateOriginal { entry: e }).spec_request() == Request::GetValidRecord(Target::OriginalActionAddress),
        first_step(FlatOp::Delete) == (Step::Await(Pending::DeleteOriginalRecord)),
        Pending::DeleteOriginalRecord.spec_request() == Request::GetValidRecord(Target::DeletesAddress),
        first_step(FlatOp::CreateRecord(OpRecord::DeleteEntry)) == (Step::Await(Pending::RecordDeleteOriginal)),
        Pending::RecordDeleteOriginal.spec_request() == Request::GetValidRecord(Target::DeletesAddress),
        first_step(FlatOp::CreateRecord(OpRecord::DeleteLink)) == (Step::Await(Pending::DeleteLinkOriginal)),
        Pending::DeleteLinkOriginal.spec_request() == Request::GetValidRecord(Target::LinkAddAddress),
        first_step(FlatOp::AgentActivity(OpActivity::CreateAgent { has_prev_action: true }))
            == (Step::Await(Pending::AgentPreviousAction)),
        Pending::AgentPreviousAction.spec_request() == Request::GetAction(Target::PrevAction),
        first_step(FlatOp::AgentActivity(OpActivity::CreateAgent { has_prev_action: false }))
            == (Step::Done(Outcome::Fail(Failure::NoPriorAction))),
{
}

/// The original action of an update or a delete passes exactly when it is
/// a `Create` or an `Update` (an update of an update is an update like any
/// other); otherwise the operation is invalid with the reason of its path.
pub proof fn lemma_original_action_creates_or_updates(e: UnitEntryTypes, t: ActionType, f: RecordFacts)
    requires
        f.wf(),
    ensures
        creates_entry(t) <==> (t == ActionType::Create || t == ActionType::Update),
        (t == ActionType::Create || t == ActionType::Update) ==>
            next_step(Pending::UpdateOriginalAction { entry: e }, Event::ActionFetched(t))
                == (Step::Await(Pending::UpdateOriginalRecord { entry: e })),
        !(t == ActionType::Create || t == ActionType::Update) ==>
            next_step(Pending::UpdateOriginalAction { entry: e }, Event::ActionFetched(t))
                == (Step::Done(Outcome::Invalid(InvalidReason::OriginalNotEntryCreation(t)))),
        (f.action_type == ActionType::Create || f.action_type == ActionType::Update) ==>
            next_step(Pending::RecordUpdateOriginal { entry: e }, Event::RecordFetched(f))
                == (Step::Await(Pending::RecordUpdateRecheck { entry: e })),
        !(f.action_type == ActionType::Create || f.action_type == ActionType::Update) ==>
            next_step(Pending::RecordUpdateOriginal { entry: e }, Event::RecordFetched(f))
                == (Step::Done(Outcome::Invalid(InvalidReason::UpdateOfNonEntryAction))),
        !(f.action_type == ActionType::Create || f.action_type == ActionType::Update) ==>
            next_step(Pending::DeleteOriginalRecord, Event::RecordFetched(f))
                == (Step::Done(Outcome::Invalid(InvalidReason::OriginalNotEntryCreation(f.action_type)))),
        !(f.action_type == ActionType::Create || f.action_type == ActionType::Update) ==>
            next_step(Pending::RecordDeleteOriginal, Event::RecordFetched(f))
                == (Step::Done(Outcome::Invalid(InvalidReason::DeleteOfNonEntryAction))),
{
}

/// An entry update reads its original record as the new entry's own type,
/// hands the update validator of that type the fetched original action and
/// the converted record, and is invalid, with the conversion error, when the
/// record is not an entry of that type.
pub proof fn lemma_entry_update_reads_original_as_own_type(e: UnitEntryTypes, f: RecordFacts, detail: String)
    ensures
        next_step(Pending::UpdateOriginalRecord { entry: e }, Event::RecordFetched(f))
            == (Step::Await(Pending::UpdateOriginalEntry { entry: e })),
        (Pending::UpdateOriginalRecord { entry: e }).spec_request() == Request::GetValidRecord(Target::OriginalActionAddress),
        (Pending::UpdateOriginalEntry { entry: e }).spec_request() == Request::ConvertRecordEntry(e),
        next_step(Pending::UpdateOriginalEntry { entry: e }, Event::EntryConverted(Conversion::Converted))
            == (Step::Done(Outcome::Delegate(ValidatorCall::UpdateEntry {
                entry: e,
                original_action: OriginalAction::FetchedAction,
                original_entry: OriginalEntry::ConvertedRecord,
            }))),
        next_step(Pending::UpdateOriginalEntry { entry: e }, Event::EntryConverted(Conversion::Failed(detail)))
            == (Step::Done(Outcome::Invalid(InvalidReason::OriginalNotOfType { entry: e, detail }))),
{
}

/// A record update re-runs the create validator of the new entry's type on
/// the update, stops with that validator's answer unless it is `Valid`,
/// then reads the original app entry as the new entry's own type: an
/// original of another type makes the update invalid, one of the same type
/// goes to the update validator of that type with the fetched record.
pub proof fn lemma_record_update_rechecks_then_reads_own_type(e: UnitEntryTypes)
    ensures
        (Pending::RecordUpdateRecheck { entry: e }).spec_request()
            == Request::CallValidator(ValidatorCall::CreateEntry { entry: e, creation: Creation::Update }),
        next_step(Pending::RecordUpdateRecheck { entry: e }, Event::ValidatorReturned(true))
            == (Step::Await(Pending::RecordUpdateOriginalEntry { entry: e })),
        next_step(Pending::RecordUpdateRecheck { entry: e }, Event::ValidatorReturned(false))
            == (Step::Done(Outcome::ValidatorVerdict)),
        (Pending::RecordUpdateOriginalEntry { entry: e }).spec_request() == Request::ReadRecordEntry(e),
        next_step(Pending::RecordUpdateOriginalEntry { entry: e }, Event::EntryRead(true))
            == (Step::Done(Outcome::Delegate(ValidatorCall::UpdateEntry {
                entry: e,
                original_action: OriginalAction::FetchedRecord,
                original_entry: OriginalEntry::RecordAppEntry,
            }))),
        next_step(Pending::RecordUpdateOriginalEntry { entry: e }, Event::EntryRead(false))
            == (Step::Done(Outcome::Invalid(InvalidReason::EntryTypeChanged))),
{
}

/// A delete whose original action creates an entry: entries that are not
/// app entries may be deleted freely; an app entry whose record carries it
/// goes on to be deserialized; a missing app entry makes an entry delete
/// invalid, and a record delete invalid exactly when the entry is public.
pub proof fn lemma_delete_of_entry_creation(f: RecordFacts)
    requires
        f.wf(),
        f.action_type == ActionType::Create || f.action_type == ActionType::Update,
    ensures
        Pending::DeletedEntry.spec_request() == Request::DeserializeEntry,
        (f.entry_type matches Some(EntryTypeKind::App { .. })) && f.entry_present ==>
            next_step(Pending::DeleteOriginalRecord, Event::RecordFetched(f)) == (Step::Await(Pending::DeletedEntry)),
        (f.entry_type matches Some(EntryTypeKind::App { .. })) && f.entry_present ==>
            next_step(Pending::RecordDeleteOriginal, Event::RecordFetched(f)) == (Step::Await(Pending::DeletedEntry)),
        (f.entry_type matches Some(EntryTypeKind::App { .. })) && !f.entry_present ==>
            next_step(Pending::DeleteOriginalRecord, Event::RecordFetched(f))
                == (Step::Done(Outcome::Invalid(InvalidReason::DeletedRecordWithoutEntry))),
        f.entry_type == Some(EntryTypeKind::App { public: true }) && !f.entry_present ==>
            next_step(Pending::RecordDeleteOriginal, Event::RecordFetched(f))
                == (Step::Done(Outcome::Invalid(InvalidReason::DeletedPublicRecordWithoutEntry))),
        f.entry_type == Some(EntryTypeKind::App { public: false }) && !f.entry_present ==>
            next_step(Pending::RecordDeleteOriginal, Event::RecordFetched(f)) == (Step::Done(Outcome::Valid)),
        !(f.entry_type matches Some(EntryTypeKind::App { .. })) ==>
            next_step(Pending::DeleteOriginalRecord, Event::RecordFetched(f)) == (Step::Done(Outcome::Valid)),
        !(f.entry_type matches Some(EntryTypeKind::App { .. })) ==>
            next_step(Pending::RecordDeleteOriginal, Event::RecordFetched(f)) == (Step::Done(Outcome::Valid)),
{
}

/// A deleted entry of this zome always reaches the delete validator of its
/// own type; a deleted entry of none of this zome's types is invalid.
pub proof fn lemma_deleted_entry_reaches_its_delete_validator(e: UnitEntryTypes)
    ensures
        next_step(Pending::DeletedEntry, Event::EntryDeserialized(Some(e)))
            == (Step::Done(Outcome::Delegate(ValidatorCall::DeleteEntry { entry: e }))),
        next_step(Pending::DeletedEntry, Event::EntryDeserialized(None))
            == (Step::Done(Outcome::Invalid(InvalidReason::UnknownEntryType))),
{
}

/// Every link operation of this zome reaches the validator of its own link
/// type. A created link gives the validator the create action's own fields.
/// A link delete seen by the link authority takes the original action, base,
/// target and tag from the create-link action the operation carries; one
/// seen by the record authority first requires the deleted action to be a
/// `CreateLink` (whose link type, when of this zome, picks the validator),
/// then takes the base from the delete action and the rest from the fetched
/// create-link action. A deleted link of another zome is no concern here.
pub proof fn lemma_links_reach_their_validator(l: LinkTypes, f: RecordFacts)
    ensures
        first_step(FlatOp::Link(OpLink::CreateLink { link_type: l }))
            == (Step::Done(Outcome::Delegate(ValidatorCall::CreateLink { link_type: l }))),
        first_step(FlatOp::CreateRecord(OpRecord::CreateLink { link_type: l }))
            == (Step::Done(Outcome::Delegate(ValidatorCall::CreateLink { link_type: l }))),
        first_step(FlatOp::Link(OpLink::DeleteLink { link_type: l }))
            == (Step::Done(Outcome::Delegate(ValidatorCall::DeleteLink {
                link_type: l,
                original_action: LinkSource::OpOriginalAction,
                base: LinkSource::OpOriginalAction,
                target_and_tag: LinkSource::OpOriginalAction,
            }))),
        f.action_type == ActionType::CreateLink ==>
            next_step(Pending::DeleteLinkOriginal, Event::RecordFetched(f)) == (Step::Await(Pending::DeletedLinkType)),
        f.action_type != ActionType::CreateLink ==>
            next_step(Pending::DeleteLinkOriginal, Event::RecordFetched(f))
                == (Step::Done(Outcome::Invalid(InvalidReason::DeleteLinkOfNonCreateLink))),
        Pending::DeletedLinkType.spec_request() == Request::ResolveLinkType,
        next_step(Pending::DeletedLinkType, Event::LinkTypeResolved(Some(l)))
            == (Step::Done(Outcome::Delegate(ValidatorCall::DeleteLink {
                link_type: l,
                original_action: LinkSource::FetchedRecord,
                base: LinkSource::OpAction,
                target_and_tag: LinkSource::FetchedRecord,
            }))),
        next_step(Pending::DeletedLinkType, Event::LinkTypeResolved(None)) == (Step::Done(Outcome::Valid)),
{
}

/// An agent creation is valid exactly when the action before it is an
/// `AgentValidationPkg` (every agent may then join); otherwise it is invalid.
pub proof fn lemma_agent_creation_needs_validation_pkg(t: ActionType)
    ensures
        t == ActionType::AgentValidationPkg ==>
            next_step(Pending::AgentPreviousAction, Event::ActionFetched(t)) == (Step::Done(Outcome::Valid)),
        t != ActionType::AgentValidationPkg ==>
            next_step(Pending::AgentPreviousAction, Event::ActionFetched(t))
                == (Step::Done(Outcome::Invalid(InvalidReason::CreateAgentWithoutValidationPkg))),
{
}

/// The length and first two characters of an action type's name.
pub open spec fn action_type_name_key(t: ActionType) -> (nat, char, char) {
    match t {
        ActionType::Dna => (3, 'D', 'n'),
        ActionType::AgentValidationPkg => (18, 'A', 'g'),
        ActionType::InitZomesComplete => (17, 'I', 'n'),
        ActionType::Create => (6, 'C', 'r'),
        ActionType::Update => (6, 'U', 'p'),
        ActionType::Delete => (6, 'D', 'e'),
        ActionType::CreateLink => (10, 'C', 'r'),
        ActionType::DeleteLink => (10, 'D', 'e'),
        ActionType::CloseChain => (10, 'C', 'l'),
        ActionType::OpenChain => (9, 'O', 'p'),
    }
}

proof fn lemma_action_type_name_key(t: ActionType)
    ensures
        action_type_name(t).len() == action_type_name_key(t).0,
        action_type_name(t)[0] == action_type_name_key(t).1,
        action_type_name(t)[1] == action_type_name_key(t).2,
{
    match t {
        ActionType::Dna => reveal_strlit("Dna"),
        ActionType::AgentValidationPkg => reveal_strlit("AgentValidationPkg"),
        ActionType::InitZomesComplete => reveal_strlit("InitZomesComplete"),
        ActionType::Create => reveal_strlit("Create"),
        ActionType::Update => reveal_strlit("Update"),
        ActionType::Delete => reveal_strlit("Delete"),
        ActionType::CreateLink => reveal_strlit("CreateLink"),
        ActionType::DeleteLink => reveal_strlit("DeleteLink"),
        ActionType::CloseChain => reveal_strlit("CloseChain"),
        ActionType::OpenChain => reveal_strlit("OpenChain"),
    }
}

/// The messages of invalid operations: the wrong-action message names the
/// action type it got, the conversion message names the expected entry type
/// and carries the conversion error, and the others are fixed texts. Distinct
/// action types and entry types have distinct names.
pub proof fn lemma_reason_messages(t: ActionType, u: ActionType, e: UnitEntryTypes, detail: String)
    ensures
        reason_text(InvalidReason::OriginalNotEntryCreation(t))
            == "Expected original action to create an entry: WrongActionError(\"Expected a Create or Update action, got "@
                + action_type_name(t) + "\")"@,
        reason_text(InvalidReason::OriginalNotOfType { entry: e, detail })
            == "Expected to get "@ + entry_type_name(e) + " from Record: "@ + detail@,
        entry_type_name(UnitEntryTypes::Post) == "Post"@,
        entry_type_name(UnitEntryTypes::Comment) == "Comment"@,
        action_type_name(ActionType::Dna) == "Dna"@,
        action_type_name(ActionType::AgentValidationPkg) == "AgentValidationPkg"@,
        action_type_name(ActionType::InitZomesComplete) == "InitZomesComplete"@,
        action_type_name(ActionType::Create) == "Create"@,
        action_type_name(ActionType::Update) == "Update"@,
        action_type_name(ActionType::Delete) == "Delete"@,
        action_type_name(ActionType::CreateLink) == "CreateLink"@,
        action_type_name(ActionType::DeleteLink) == "DeleteLink"@,
        action_type_name(ActionType::CloseChain) == "CloseChain"@,
        action_type_name(ActionType::OpenChain) == "OpenChain"@,
        no_prior_action_text() == "expected a prior action before CreateAgent"@,
        t != u ==> action_type_name(t) != action_type_name(u),
        reason_text(InvalidReason::DeletedRecordWithoutEntry)
            == "Original record for a delete must contain an entry"@,
        reason_text(InvalidReason::UnknownEntryType)
            == "Original app entry must be one of the defined entry types for this zome"@,
        reason_text(InvalidReason::UpdateOfNonEntryAction)
            == "Original action for an update must be a Create or Update action"@,
        reason_text(InvalidReason::EntryTypeChanged)
            == "The updated entry type must be the same as the original entry type"@,
        reason_text(InvalidReason::DeleteOfNonEntryAction)
            == "Original action for a delete must be a Create or Update action"@,
        reason_text(InvalidReason::DeletedPublicRecordWithoutEntry)
            == "Original record for a delete of a public entry must contain an entry"@,
        reason_text(InvalidReason::DeleteLinkOfNonCreateLink)
            == "The action that a DeleteLink deletes must be a CreateLink"@,
        reason_text(InvalidReason::CreateAgentWithoutValidationPkg)
            == "The previous action for a `CreateAgent` action must be an `AgentValidationPkg`"@,
{
    if t != u {
        lemma_action_type_name_key(t);
        lemma_action_type_name_key(u);
        if action_type_name(t) == action_type_name(u) {
            assert(action_type_name_key(t) == action_type_name_key(u));
        }
    }
}

} // verus!
