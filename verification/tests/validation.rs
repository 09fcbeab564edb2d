use posts_integrity::model::{
    ActionType, EntryTypeKind, EntryTypes, FlatOp, LinkTypes, OpActivity, OpEntry, OpLink, OpRecord,
    OpUpdate, RecordFacts, UnitEntryTypes,
};
use posts_integrity::reasons::{no_prior_action_message, Failure, InvalidReason};
use posts_integrity::validation::{
    genesis_self_check, resume, validate, validate_agent_joining, Conversion, Creation, Event,
    LinkSource, OriginalAction, OriginalEntry, Outcome, Pending, Request, Step, Target,
    ValidatorCall,
};

fn record(action_type: ActionType, entry_type: Option<EntryTypeKind>, entry_present: bool) -> RecordFacts {
    RecordFacts { action_type, entry_type, entry_present }
}

fn app_record(public: bool, entry_present: bool) -> RecordFacts {
    record(ActionType::Create, Some(EntryTypeKind::App { public }), entry_present)
}

fn awaiting(step: Step) -> Pending {
    match step {
        Step::Await(p) => p,
        Step::Done(o) => panic!("expected a request, got {:?}", o),
    }
}

fn invalid_message(step: Step) -> String {
    match step {
        Step::Done(Outcome::Invalid(reason)) => reason.message(),
        other => panic!("expected an invalid outcome, got {:?}", other),
    }
}

#[test]
fn create_entry_goes_to_create_validator() {
    let step = validate(&FlatOp::CreateEntry(OpEntry::CreateEntry { app_entry: UnitEntryTypes::Post }));
    assert_eq!(
        step,
        Step::Done(Outcome::Delegate(ValidatorCall::CreateEntry {
            entry: UnitEntryTypes::Post,
            creation: Creation::Create
        }))
    );
    let step = validate(&FlatOp::CreateEntry(OpEntry::UpdateEntry { app_entry: UnitEntryTypes::Comment }));
    assert_eq!(
        step,
        Step::Done(Outcome::Delegate(ValidatorCall::CreateEntry {
            entry: UnitEntryTypes::Comment,
            creation: Creation::Update
        }))
    );
}

#[test]
fn record_create_matches_entry_create() {
    for entry in [UnitEntryTypes::Post, UnitEntryTypes::Comment] {
        assert_eq!(
            validate(&FlatOp::CreateRecord(OpRecord::CreateEntry { app_entry: entry })),
            validate(&FlatOp::CreateEntry(OpEntry::CreateEntry { app_entry: entry }))
        );
    }
    for link_type in [LinkTypes::PostUpdates, LinkTypes::PostToComments, LinkTypes::AllPosts] {
        assert_eq!(
            validate(&FlatOp::CreateRecord(OpRecord::CreateLink { link_type })),
            validate(&FlatOp::Link(OpLink::CreateLink { link_type }))
        );
    }
}

#[test]
fn foreign_operations_are_valid() {
    for op in [
        FlatOp::CreateEntry(OpEntry::Other),
        FlatOp::Update(OpUpdate::Other),
        FlatOp::CreateRecord(OpRecord::Other),
        FlatOp::AgentActivity(OpActivity::Other),
    ] {
        assert_eq!(validate(&op), Step::Done(Outcome::Valid));
    }
}

#[test]
fn entry_update_full_path() {
    let p = awaiting(validate(&FlatOp::Update(OpUpdate::Entry { app_entry: UnitEntryTypes::Comment })));
    assert_eq!(p.request(), Request::GetAction(Target::OriginalActionAddress));
    let p = awaiting(resume(p, Event::ActionFetched(ActionType::Update)));
    assert_eq!(p.request(), Request::GetValidRecord(Target::OriginalActionAddress));
    let p = awaiting(resume(p, Event::RecordFetched(app_record(true, true))));
    assert_eq!(p.request(), Request::ConvertRecordEntry(UnitEntryTypes::Comment));
    let step = resume(p, Event::EntryConverted(Conversion::Converted));
    assert_eq!(
        step,
        Step::Done(Outcome::Delegate(ValidatorCall::UpdateEntry {
            entry: UnitEntryTypes::Comment,
            original_action: OriginalAction::FetchedAction,
            original_entry: OriginalEntry::ConvertedRecord,
        }))
    );
}

#[test]
fn entry_update_of_non_creating_action() {
    let p = awaiting(validate(&FlatOp::Update(OpUpdate::Entry { app_entry: UnitEntryTypes::Post })));
    let step = resume(p, Event::ActionFetched(ActionType::Delete));
    assert_eq!(
        step,
        Step::Done(Outcome::Invalid(InvalidReason::OriginalNotEntryCreation(ActionType::Delete)))
    );
    assert_eq!(
        invalid_message(step),
        "Expected original action to create an entry: WrongActionError(\"Expected a Create or Update action, got Delete\")"
    );
}

#[test]
fn entry_update_with_unconvertible_original() {
    let p = Pending::UpdateOriginalEntry { entry: UnitEntryTypes::Comment };
    let step = resume(p, Event::EntryConverted(Conversion::Failed("Deserialize error".to_string())));
    assert_eq!(invalid_message(step), "Expected to get Comment from Record: Deserialize error");
    let p = Pending::UpdateOriginalEntry { entry: UnitEntryTypes::Post };
    let step = resume(p, Event::EntryConverted(Conversion::Failed("x".to_string())));
    assert_eq!(invalid_message(step), "Expected to get Post from Record: x");
}

#[test]
fn entry_delete_paths() {
    let p = awaiting(validate(&FlatOp::Delete));
    assert_eq!(p.request(), Request::GetValidRecord(Target::DeletesAddress));
    let step = resume(p, Event::RecordFetched(record(ActionType::CreateLink, None, false)));
    assert_eq!(
        invalid_message(step),
        "Expected original action to create an entry: WrongActionError(\"Expected a Create or Update action, got CreateLink\")"
    );
    let step = resume(p, Event::RecordFetched(record(ActionType::Create, Some(EntryTypeKind::AgentPubKey), true)));
    assert_eq!(step, Step::Done(Outcome::Valid));
    let step = resume(p, Event::RecordFetched(app_record(false, false)));
    assert_eq!(invalid_message(step), "Original record for a delete must contain an entry");
    let d = awaiting(resume(p, Event::RecordFetched(app_record(true, true))));
    assert_eq!(d, Pending::DeletedEntry);
    assert_eq!(d.request(), Request::DeserializeEntry);
    assert_eq!(
        resume(d, Event::EntryDeserialized(Some(UnitEntryTypes::Post))),
        Step::Done(Outcome::Delegate(ValidatorCall::DeleteEntry { entry: UnitEntryTypes::Post }))
    );
    assert_eq!(
        invalid_message(resume(d, Event::EntryDeserialized(None))),
        "Original app entry must be one of the defined entry types for this zome"
    );
}

#[test]
fn record_delete_paths() {
    let p = awaiting(validate(&FlatOp::CreateRecord(OpRecord::DeleteEntry)));
    assert_eq!(p.request(), Request::GetValidRecord(Target::DeletesAddress));
    let step = resume(p, Event::RecordFetched(record(ActionType::Dna, None, false)));
    assert_eq!(invalid_message(step), "Original action for a delete must be a Create or Update action");
    assert_eq!(resume(p, Event::RecordFetched(app_record(false, false))), Step::Done(Outcome::Valid));
    let step = resume(p, Event::RecordFetched(app_record(true, false)));
    assert_eq!(invalid_message(step), "Original record for a delete of a public entry must contain an entry");
    assert_eq!(resume(p, Event::RecordFetched(app_record(true, true))), Step::Await(Pending::DeletedEntry));
    assert_eq!(
        resume(p, Event::RecordFetched(record(ActionType::Update, Some(EntryTypeKind::CapGrant), false))),
        Step::Done(Outcome::Valid)
    );
}

#[test]
fn record_update_paths() {
    let p = awaiting(validate(&FlatOp::CreateRecord(OpRecord::UpdateEntry { app_entry: UnitEntryTypes::Post })));
    assert_eq!(p.request(), Request::GetValidRecord(Target::OriginalActionAddress));
    let step = resume(p, Event::RecordFetched(record(ActionType::CreateLink, None, false)));
    assert_eq!(invalid_message(step), "Original action for an update must be a Create or Update action");
    let r = awaiting(resume(p, Event::RecordFetched(app_record(true, true))));
    assert_eq!(
        r.request(),
        Request::CallValidator(ValidatorCall::CreateEntry { entry: UnitEntryTypes::Post, creation: Creation::Update })
    );
    assert_eq!(resume(r, Event::ValidatorReturned(false)), Step::Done(Outcome::ValidatorVerdict));
    let e = awaiting(resume(r, Event::ValidatorReturned(true)));
    assert_eq!(e.request(), Request::ReadRecordEntry(UnitEntryTypes::Post));
    assert_eq!(
        invalid_message(resume(e, Event::EntryRead(false))),
        "The updated entry type must be the same as the original entry type"
    );
    assert_eq!(
        resume(e, Event::EntryRead(true)),
        Step::Done(Outcome::Delegate(ValidatorCall::UpdateEntry {
            entry: UnitEntryTypes::Post,
            original_action: OriginalAction::FetchedRecord,
            original_entry: OriginalEntry::RecordAppEntry,
        }))
    );
}

#[test]
fn link_delete_paths() {
    assert_eq!(
        validate(&FlatOp::Link(OpLink::DeleteLink { link_type: LinkTypes::AllPosts })),
        Step::Done(Outcome::Delegate(ValidatorCall::DeleteLink {
            link_type: LinkTypes::AllPosts,
            original_action: LinkSource::OpOriginalAction,
            base: LinkSource::OpOriginalAction,
            target_and_tag: LinkSource::OpOriginalAction,
        }))
    );
    let p = awaiting(validate(&FlatOp::CreateRecord(OpRecord::DeleteLink)));
    assert_eq!(p.request(), Request::GetValidRecord(Target::LinkAddAddress));
    let step = resume(p, Event::RecordFetched(app_record(true, true)));
    assert_eq!(invalid_message(step), "The action that a DeleteLink deletes must be a CreateLink");
    let l = awaiting(resume(p, Event::RecordFetched(record(ActionType::CreateLink, None, false))));
    assert_eq!(l.request(), Request::ResolveLinkType);
    assert_eq!(resume(l, Event::LinkTypeResolved(None)), Step::Done(Outcome::Valid));
    assert_eq!(
        resume(l, Event::LinkTypeResolved(Some(LinkTypes::PostToComments))),
        Step::Done(Outcome::Delegate(ValidatorCall::DeleteLink {
            link_type: LinkTypes::PostToComments,
            original_action: LinkSource::FetchedRecord,
            base: LinkSource::OpAction,
            target_and_tag: LinkSource::FetchedRecord,
        }))
    );
}

#[test]
fn agent_creation_paths() {
    let step = validate(&FlatOp::AgentActivity(OpActivity::CreateAgent { has_prev_action: false }));
    assert_eq!(step, Step::Done(Outcome::Fail(Failure::NoPriorAction)));
    assert_eq!(no_prior_action_message(), "expected a prior action before CreateAgent");
    let p = awaiting(validate(&FlatOp::AgentActivity(OpActivity::CreateAgent { has_prev_action: true })));
    assert_eq!(p.request(), Request::GetAction(Target::PrevAction));
    assert_eq!(resume(p, Event::ActionFetched(ActionType::AgentValidationPkg)), Step::Done(Outcome::Valid));
    assert_eq!(
        invalid_message(resume(p, Event::ActionFetched(ActionType::Create))),
        "The previous action for a `CreateAgent` action must be an `AgentValidationPkg`"
    );
}

#[test]
fn failed_requests_propagate() {
    let all = [
        Pending::UpdateOriginalAction { entry: UnitEntryTypes::Post },
        Pending::UpdateOriginalRecord { entry: UnitEntryTypes::Post },
        Pending::DeleteOriginalRecord,
        Pending::DeletedEntry,
        Pending::RecordUpdateOriginal { entry: UnitEntryTypes::Comment },
        Pending::RecordUpdateRecheck { entry: UnitEntryTypes::Comment },
        Pending::RecordUpdateOriginalEntry { entry: UnitEntryTypes::Comment },
        Pending::RecordDeleteOriginal,
        Pending::DeleteLinkOriginal,
        Pending::DeletedLinkType,
        Pending::AgentPreviousAction,
    ];
    for p in all {
        assert_eq!(resume(p, Event::Failed), Step::Done(Outcome::Fail(Failure::Propagated)));
    }
}

#[test]
fn at_most_three_requests_on_longest_paths() {
    let mut count = 0;
    let mut step = validate(&FlatOp::Update(OpUpdate::Entry { app_entry: UnitEntryTypes::Post }));
    let answers = [
        Event::ActionFetched(ActionType::Create),
        Event::RecordFetched(app_record(true, true)),
        Event::EntryConverted(Conversion::Converted),
    ];
    for a in answers {
        step = resume(awaiting(step), a);
        count += 1;
    }
    assert_eq!(count, 3);
    assert!(matches!(step, Step::Done(_)));
}

#[test]
fn genesis_and_joining_always_valid() {
    assert_eq!(genesis_self_check(()), Outcome::Valid);
    assert_eq!(genesis_self_check(vec![1u8, 2, 3]), Outcome::Valid);
    assert_eq!(validate_agent_joining([7u8; 39], &Some(vec![0u8])), Outcome::Valid);
    assert_eq!(validate_agent_joining("agent", &None::<u8>), Outcome::Valid);
}

#[test]
fn entry_types_units() {
    let post: EntryTypes<u32, String> = EntryTypes::Post(5);
    let comment: EntryTypes<u32, String> = EntryTypes::Comment("hi".to_string());
    assert_eq!(post.unit(), UnitEntryTypes::Post);
    assert_eq!(comment.unit(), UnitEntryTypes::Comment);
}

#[test]
fn every_reason_has_its_message() {
    assert_eq!(
        InvalidReason::OriginalNotEntryCreation(ActionType::InitZomesComplete).message(),
        "Expected original action to create an entry: WrongActionError(\"Expected a Create or Update action, got InitZomesComplete\")"
    );
    assert_eq!(
        InvalidReason::DeletedRecordWithoutEntry.message(),
        "Original record for a delete must contain an entry"
    );
    assert_eq!(
        InvalidReason::UnknownEntryType.message(),
        "Original app entry must be one of the defined entry types for this zome"
    );
}

#[test]
fn entry_and_record_deletes_agree_on_stored_app_entries() {
    for f in [
        app_record(true, true),
        app_record(false, true),
        record(ActionType::Update, Some(EntryTypeKind::AgentPubKey), false),
        record(ActionType::Create, Some(EntryTypeKind::CapClaim), true),
    ] {
        assert_eq!(
            resume(Pending::DeleteOriginalRecord, Event::RecordFetched(f)),
            resume(Pending::RecordDeleteOriginal, Event::RecordFetched(f))
        );
    }
    // They part only on a missing private entry.
    assert_ne!(
        resume(Pending::DeleteOriginalRecord, Event::RecordFetched(app_record(false, false))),
        resume(Pending::RecordDeleteOriginal, Event::RecordFetched(app_record(false, false)))
    );
}
