use vstd::prelude::*;

verus! {

/// The entry types this zome defines, without their contents.
#[derive(Clone, Copy, Debug, PartialEq, Eq)]
pub enum UnitEntryTypes {
    Post,
    Comment,
}

/// An app entry of this zome: a post or a comment.
#[derive(Clone, Debug, PartialEq, Eq)]
pub enum EntryTypes<P, C> {
    Post(P),
    Comment(C),
}

impl<P, C> EntryTypes<P, C> {
    /// The entry type of this entry.
    pub open spec fn spec_unit(&self) -> UnitEntryTypes {
        match self {
            EntryTypes::Post(_) => UnitEntryTypes::Post,
            EntryTypes::Comment(_) => UnitEntryTypes::Comment,
        }
    }

    /// The entry type of this entry.
    pub fn unit(&self) -> (u: UnitEntryTypes)
        ensures
            u == self.spec_unit(),
    {
        match self {
            EntryTypes::Post(_) => UnitEntryTypes::Post,
            EntryTypes::Comment(_) => UnitEntryTypes::Comment,
        }
    }
}

/// The link types this zome defines.
#[derive(Clone, Copy, Debug, PartialEq, Eq)]
pub enum LinkTypes {
    PostUpdates,
    PostToComments,
    AllPosts,
}

/// The kind of a source-chain action.
#[derive(Clone, Copy, Debug, PartialEq, Eq)]
pub enum ActionType {
    Dna,
    AgentValidationPkg,
    InitZomesComplete,
    Create,
    Update,
    Delete,
    CreateLink,
    DeleteLink,
    CloseChain,
    OpenChain,
}

/// Whether an action of this kind creates an entry (a `Create` or an `Update`).
pub open spec fn creates_entry(t: ActionType) -> bool {
    t == ActionType::Create || t == ActionType::Update
}

/// The type of the entry that an entry-creating action refers to.
#[derive(Clone, Copy, Debug, PartialEq, Eq)]
pub enum EntryTypeKind {
    /// An entry type defined by an app zome, public or private.
    App { public: bool },
    AgentPubKey,
    CapClaim,
    CapGrant,
}

/// What validation reads of a record fetched from the DHT.
#[derive(Clone, Copy, Debug, PartialEq, Eq)]
pub struct RecordFacts {
    /// The kind of the record's action.
    pub action_type: ActionType,
    /// The entry type of the record's action, present exactly when the
    /// action creates an entry.
    pub entry_type: Option<EntryTypeKind>,
    /// Whether the record carries its entry.
    pub entry_present: bool,
}

impl RecordFacts {
    /// The entry type is known exactly for entry-creating actions.
    pub open spec fn wf(self) -> bool {
        self.entry_type is Some <==> creates_entry(self.action_type)
    }
}

/// An operation received by the entry authority for a stored entry.
#[derive(Clone, Copy, Debug, PartialEq, Eq)]
pub enum OpEntry {
    /// A `Create` of an app entry of this zome.
    CreateEntry { app_entry: UnitEntryTypes },
    /// The new entry of an `Update` of an app entry of this zome.
    UpdateEntry { app_entry: UnitEntryTypes },
    /// An agent key, a capability, or an entry of another zome.
    Other,
}

/// An operation received by the entry authority for an update.
#[derive(Clone, Copy, Debug, PartialEq, Eq)]
pub enum OpUpdate {
    /// An update of a public app entry of this zome.
    Entry { app_entry: UnitEntryTypes },
    /// An update of a private entry, an agent key or a capability.
    Other,
}

/// A link operation.
#[derive(Clone, Copy, Debug, PartialEq, Eq)]
pub enum OpLink {
    /// A link is created.
    CreateLink { link_type: LinkTypes },
    /// A link is deleted; the operation carries the original create-link action.
    DeleteLink { link_type: LinkTypes },
}

/// An operation received by the record authority.
#[derive(Clone, Copy, Debug, PartialEq, Eq)]
pub enum OpRecord {
    CreateEntry { app_entry: UnitEntryTypes },
    UpdateEntry { app_entry: UnitEntryTypes },
    DeleteEntry,
    CreateLink { link_type: LinkTypes },
    DeleteLink,
    /// Private entries, agent keys, capabilities, and chain bookkeeping actions.
    Other,
}

/// An operation received by the chain authority.
#[derive(Clone, Copy, Debug, PartialEq, Eq)]
pub enum OpActivity {
    /// The creation of an agent key; `has_prev_action` says whether its
    /// header names a previous action.
    CreateAgent { has_prev_action: bool },
    Other,
}

/// A DHT operation in its flattened form, as far as validation reads it.
#[derive(Clone, Copy, Debug, PartialEq, Eq)]
pub enum FlatOp {
    CreateRecord(OpRecord),
    CreateEntry(OpEntry),
    AgentActivity(OpActivity),
    Link(OpLink),
    Update(OpUpdate),
    Delete,
}

} // verus!
