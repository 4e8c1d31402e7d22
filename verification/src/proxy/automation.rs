//! Upgrade documentation, validation checklists, notifications and
//! automation scripts.
use vstd::prelude::*;
use vstd::string::StringSliceAdditionalSpecFns;
use crate::address::Address;
use crate::table::{Duplicate, text_of};
use super::error::AutomationError;
use super::storage::{Storage, StorageModel};

verus! {

broadcast use crate::table::lemma_bytes_deep_view;

/// Documentation generated for an upgrade.
#[derive(Clone, Debug, PartialEq)]
pub struct UpgradeDocumentation {
    pub id: u64,
    pub proposal_id: u64,
    pub prev_implementation: Address,
    pub new_implementation: Address,
    pub changes_summary: Vec<u8>,
    pub breaking_changes: Vec<Vec<u8>>,
    pub migration_requirements: Vec<u8>,
    pub testing_recommendations: Vec<u8>,
    pub rollback_plan: Vec<u8>,
    pub generated_at: u64,
}

/// The model of [`UpgradeDocumentation`].
pub struct UpgradeDocumentationModel {
    pub id: u64,
    pub proposal_id: u64,
    pub prev_implementation: Seq<u8>,
    pub new_implementation: Seq<u8>,
    pub changes_summary: Seq<u8>,
    pub breaking_changes: Seq<Seq<u8>>,
    pub migration_requirements: Seq<u8>,
    pub testing_recommendations: Seq<u8>,
    pub rollback_plan: Seq<u8>,
    pub generated_at: u64,
}

impl DeepView for UpgradeDocumentation {
    type V = UpgradeDocumentationModel;

    open spec fn deep_view(&self) -> UpgradeDocumentationModel {
        UpgradeDocumentationModel {
            id: self.id.deep_view(),
            proposal_id: self.proposal_id.deep_view(),
            prev_implementation: self.prev_implementation.deep_view(),
            new_implementation: self.new_implementation.deep_view(),
            changes_summary: self.changes_summary.deep_view(),
            breaking_changes: self.breaking_changes.deep_view(),
            migration_requirements: self.migration_requirements.deep_view(),
            testing_recommendations: self.testing_recommendations.deep_view(),
            rollback_plan: self.rollback_plan.deep_view(),
            generated_at: self.generated_at.deep_view(),
        }
    }
}

impl View for UpgradeDocumentation {
    type V = UpgradeDocumentationModel;

    open spec fn view(&self) -> UpgradeDocumentationModel {
        UpgradeDocumentationModel {
            id: self.id.deep_view(),
            proposal_id: self.proposal_id.deep_view(),
            prev_implementation: self.prev_implementation.deep_view(),
            new_implementation: self.new_implementation.deep_view(),
            changes_summary: self.changes_summary.deep_view(),
            breaking_changes: self.breaking_changes.deep_view(),
            migration_requirements: self.migration_requirements.deep_view(),
            testing_recommendations: self.testing_recommendations.deep_view(),
            rollback_plan: self.rollback_plan.deep_view(),
            generated_at: self.generated_at.deep_view(),
        }
    }
}

impl Duplicate for UpgradeDocumentation {
    fn duplicate(&self) -> (r: Self) {
        UpgradeDocumentation {
            id: self.id.duplicate(),
            proposal_id: self.proposal_id.duplicate(),
            prev_implementation: self.prev_implementation.duplicate(),
            new_implementation: self.new_implementation.duplicate(),
            changes_summary: self.changes_summary.duplicate(),
            breaking_changes: self.breaking_changes.duplicate(),
            migration_requirements: self.migration_requirements.duplicate(),
            testing_recommendations: self.testing_recommendations.duplicate(),
            rollback_plan: self.rollback_plan.duplicate(),
            generated_at: self.generated_at.duplicate(),
        }
    }
}
/// An item of a validation checklist.
#[derive(Clone, Debug, PartialEq)]
pub struct ChecklistItem {
    pub id: u32,
    pub description: Vec<u8>,
    pub completed: bool,
    pub completed_at: u64,
    pub assigned_to: Option<Address>,
}

/// The model of [`ChecklistItem`].
pub struct ChecklistItemModel {
    pub id: u32,
    pub description: Seq<u8>,
    pub completed: bool,
    pub completed_at: u64,
    pub assigned_to: Option<Seq<u8>>,
}

impl DeepView for ChecklistItem {
    type V = ChecklistItemModel;

    open spec fn deep_view(&self) -> ChecklistItemModel {
        ChecklistItemModel {
            id: self.id.deep_view(),
            description: self.description.deep_view(),
            completed: self.completed.deep_view(),
            completed_at: self.completed_at.deep_view(),
            assigned_to: self.assigned_to.deep_view(),
        }
    }
}

impl View for ChecklistItem {
    type V = ChecklistItemModel;

    open spec fn view(&self) -> ChecklistItemModel {
        ChecklistItemModel {
            id: self.id.deep_view(),
            description: self.description.deep_view(),
            completed: self.completed.deep_view(),
            completed_at: self.completed_at.deep_view(),
            assigned_to: self.assigned_to.deep_view(),
        }
    }
}

impl Duplicate for ChecklistItem {
    fn duplicate(&self) -> (r: Self) {
        ChecklistItem {
            id: self.id.duplicate(),
            description: self.description.duplicate(),
            completed: self.completed.duplicate(),
            completed_at: self.completed_at.duplicate(),
            assigned_to: self.assigned_to.duplicate(),
        }
    }
}
/// The validation checklist of an upgrade proposal.
#[derive(Clone, Debug, PartialEq)]
pub struct UpgradeChecklist {
    pub id: u64,
    pub proposal_id: u64,
    pub items: Vec<ChecklistItem>,
    /// 0 to 100.
    pub completion_percentage: u32,
    pub all_completed: bool,
    pub created_at: u64,
}

/// The model of [`UpgradeChecklist`].
pub struct UpgradeChecklistModel {
    pub id: u64,
    pub proposal_id: u64,
    pub items: Seq<ChecklistItemModel>,
    pub completion_percentage: u32,
    pub all_completed: bool,
    pub created_at: u64,
}

impl DeepView for UpgradeChecklist {
    type V = UpgradeChecklistModel;

    open spec fn deep_view(&self) -> UpgradeChecklistModel {
        UpgradeChecklistModel {
            id: self.id.deep_view(),
            proposal_id: self.proposal_id.deep_view(),
            items: self.items.deep_view(),
            completion_percentage: self.completion_percentage.deep_view(),
            all_completed: self.all_completed.deep_view(),
            created_at: self.created_at.deep_view(),
        }
    }
}

impl View for UpgradeChecklist {
    type V = UpgradeChecklistModel;

    open spec fn view(&self) -> UpgradeChecklistModel {
        UpgradeChecklistModel {
            id: self.id.deep_view(),
            proposal_id: self.proposal_id.deep_view(),
            items: self.items.deep_view(),
            completion_percentage: self.completion_percentage.deep_view(),
            all_completed: self.all_completed.deep_view(),
            created_at: self.created_at.deep_view(),
        }
    }
}

impl Duplicate for UpgradeChecklist {
    fn duplicate(&self) -> (r: Self) {
        UpgradeChecklist {
            id: self.id.duplicate(),
            proposal_id: self.proposal_id.duplicate(),
            items: self.items.duplicate(),
            completion_percentage: self.completion_percentage.duplicate(),
            all_completed: self.all_completed.duplicate(),
            created_at: self.created_at.duplicate(),
        }
    }
}
/// A script run around an upgrade.
#[derive(Clone, Debug, PartialEq)]
pub struct UpgradeScript {
    pub id: u64,
    pub name: Vec<u8>,
    /// Encoded script.
    pub content: Vec<u8>,
    /// 0 pre-upgrade, 1 migration, 2 post-upgrade.
    pub script_type: u32,
    pub parameters: Vec<Vec<u8>>,
    pub enabled: bool,
}

/// The model of [`UpgradeScript`].
pub struct UpgradeScriptModel {
    pub id: u64,
    pub name: Seq<u8>,
    pub content: Seq<u8>,
    pub script_type: u32,
    pub parameters: Seq<Seq<u8>>,
    pub enabled: bool,
}

impl DeepView for UpgradeScript {
    type V = UpgradeScriptModel;

    open spec fn deep_view(&self) -> UpgradeScriptModel {
        UpgradeScriptModel {
            id: self.id.deep_view(),
            name: self.name.deep_view(),
            content: self.content.deep_view(),
            script_type: self.script_type.deep_view(),
            parameters: self.parameters.deep_view(),
            enabled: self.enabled.deep_view(),
        }
    }
}

impl View for UpgradeScript {
    type V = UpgradeScriptModel;

    open spec fn view(&self) -> UpgradeScriptModel {
        UpgradeScriptModel {
            id: self.id.deep_view(),
            name: self.name.deep_view(),
            content: self.content.deep_view(),
            script_type: self.script_type.deep_view(),
            parameters: self.parameters.deep_view(),
            enabled: self.enabled.deep_view(),
        }
    }
}

impl Duplicate for UpgradeScript {
    fn duplicate(&self) -> (r: Self) {
        UpgradeScript {
            id: self.id.duplicate(),
            name: self.name.duplicate(),
            content: self.content.duplicate(),
            script_type: self.script_type.duplicate(),
            parameters: self.parameters.duplicate(),
            enabled: self.enabled.duplicate(),
        }
    }
}
/// A notification about an upgrade.
#[derive(Clone, Debug, PartialEq)]
pub struct NotificationMessage {
    pub id: u64,
    /// 0 info, 1 warning, 2 error.
    pub message_type: u32,
    pub recipient: Address,
    pub subject: Vec<u8>,
    pub body: Vec<u8>,
    pub proposal_id: u64,
    pub created_at: u64,
    /// Zero while unsent.
    pub sent_at: u64,
}

/// The model of [`NotificationMessage`].
pub struct NotificationMessageModel {
    pub id: u64,
    pub message_type: u32,
    pub recipient: Seq<u8>,
    pub subject: Seq<u8>,
    pub body: Seq<u8>,
    pub proposal_id: u64,
    pub created_at: u64,
    pub sent_at: u64,
}

impl DeepView for NotificationMessage {
    type V = NotificationMessageModel;

    open spec fn deep_view(&self) -> NotificationMessageModel {
        NotificationMessageModel {
            id: self.id.deep_view(),
            message_type: self.message_type.deep_view(),
            recipient: self.recipient.deep_view(),
            subject: self.subject.deep_view(),
            body: self.body.deep_view(),
            proposal_id: self.proposal_id.deep_view(),
            created_at: self.created_at.deep_view(),
            sent_at: self.sent_at.deep_view(),
        }
    }
}

impl View for NotificationMessage {
    type V = NotificationMessageModel;

    open spec fn view(&self) -> NotificationMessageModel {
        NotificationMessageModel {
            id: self.id.deep_view(),
            message_type: self.message_type.deep_view(),
            recipient: self.recipient.deep_view(),
            subject: self.subject.deep_view(),
            body: self.body.deep_view(),
            proposal_id: self.proposal_id.deep_view(),
            created_at: self.created_at.deep_view(),
            sent_at: self.sent_at.deep_view(),
        }
    }
}

impl Duplicate for NotificationMessage {
    fn duplicate(&self) -> (r: Self) {
        NotificationMessage {
            id: self.id.duplicate(),
            message_type: self.message_type.duplicate(),
            recipient: self.recipient.duplicate(),
            subject: self.subject.duplicate(),
            body: self.body.duplicate(),
            proposal_id: self.proposal_id.duplicate(),
            created_at: self.created_at.duplicate(),
            sent_at: self.sent_at.duplicate(),
        }
    }
}
/// The storage keys of automation records.
#[derive(Clone, Debug, PartialEq)]
pub enum AutomationStorageKey {
    /// The documentation of a proposal.
    Documentation(u64),
    /// The checklist of a proposal.
    Checklist(u64),
    /// An automation script.
    Script(u64),
    /// A notification.
    Notification(u64),
    /// The queue of notifications.
    NotificationQueue,
    /// The documentation counter.
    DocumentationCounter,
    /// The notification counter.
    NotificationCounter,
}

/// The documentation generated for proposal `proposal_id` as document `id`.
pub open spec fn spec_documentation(
    id: u64,
    proposal_id: u64,
    prev_impl: Seq<u8>,
    new_impl: Seq<u8>,
    breaking_changes: Seq<Seq<u8>>,
    now: u64,
) -> UpgradeDocumentationModel {
    UpgradeDocumentationModel {
        id,
        proposal_id,
        prev_implementation: prev_impl,
        new_implementation: new_impl,
        changes_summary: "Contract upgraded with improved features and safety enhancements".spec_bytes(),
        breaking_changes,
        migration_requirements: "Data migration required for state compatibility".spec_bytes(),
        testing_recommendations: "Run comprehensive test suite including regression tests".spec_bytes(),
        rollback_plan: "Use integrated rollback mechanism for any issues".spec_bytes(),
        generated_at: now,
    }
}

/// Generates and keeps upgrade documentation.
pub struct DocumentationGenerator;

impl DocumentationGenerator {
    /// Generates the documentation of proposal `proposal_id` under the next
    /// document id, and keeps it as the proposal's documentation.
    pub fn generate_documentation(
        store: &mut Storage,
        now: u64,
        proposal_id: u64,
        prev_impl: Address,
        new_impl: Address,
        breaking_changes: Vec<Vec<u8>>,
    ) -> (r: Result<UpgradeDocumentation, AutomationError>)
        requires
            old(store).wf(),
            old(store)@.documentation_counter < u64::MAX,
        ensures
            final(store).wf(),
            match r {
                Ok(d) => d@ == spec_documentation(
                    (old(store)@.documentation_counter + 1) as u64,
                    proposal_id,
                    prev_impl@,
                    new_impl@,
                    breaking_changes.deep_view(),
                    now,
                ),
                Err(_) => false,
            },
            final(store)@ == (StorageModel {
                documentation_counter: (old(store)@.documentation_counter + 1) as u64,
                documentation: old(store)@.documentation.insert(
                    proposal_id,
                    spec_documentation(
                        (old(store)@.documentation_counter + 1) as u64,
                        proposal_id,
                        prev_impl@,
                        new_impl@,
                        breaking_changes.deep_view(),
                        now,
                    ),
                ),
                ..old(store)@
            }),
    {
        let doc_id = Self::next_document_id(store);
        let doc = UpgradeDocumentation {
            id: doc_id,
            proposal_id,
            prev_implementation: prev_impl,
            new_implementation: new_impl,
            changes_summary: text_of("Contract upgraded with improved features and safety enhancements"),
            breaking_changes,
            migration_requirements: text_of("Data migration required for state compatibility"),
            testing_recommendations: text_of("Run comprehensive test suite including regression tests"),
            rollback_plan: text_of("Use integrated rollback mechanism for any issues"),
            generated_at: now,
        };
        store.documentation.set(proposal_id, doc.duplicate());
        Ok(doc)
    }

    /// The documentation kept for proposal `proposal_id`.
    pub fn get_documentation(store: &Storage, proposal_id: u64) -> (r: Result<UpgradeDocumentation, AutomationError>)
        requires
            store.wf(),
        ensures
            match r {
                Ok(d) => store@.documentation.contains_key(proposal_id) && d@ == store@.documentation[proposal_id],
                Err(e) => !store@.documentation.contains_key(proposal_id) && e == AutomationError::DocumentationGenerationFailed,
            },
    {
        match store.documentation.get(&proposal_id) {
            Some(d) => Ok(d.duplicate()),
            None => Err(AutomationError::DocumentationGenerationFailed),
        }
    }

    /// Advances the document counter and returns its new value.
    fn next_document_id(store: &mut Storage) -> (id: u64)
        requires
            old(store).wf(),
            old(store)@.documentation_counter < u64::MAX,
        ensures
            final(store).wf(),
            id == old(store)@.documentation_counter + 1,
            final(store)@ == (StorageModel { documentation_counter: id, ..old(store)@ }),
    {
        store.documentation_counter = store.documentation_counter + 1;
        store.documentation_counter
    }
}

// ===== Checklists =====

/// The standard items of a new checklist, none completed.
pub open spec fn standard_items() -> Seq<ChecklistItemModel> {
    seq![
        open_item(1, "Code review completed".spec_bytes()),
        open_item(2, "Security audit passed".spec_bytes()),
        open_item(3, "All tests passing".spec_bytes()),
        open_item(4, "Migration validation complete".spec_bytes()),
        open_item(5, "Rollback plan tested".spec_bytes()),
    ]
}

/// An item not completed and assigned to nobody.
pub open spec fn open_item(id: u32, description: Seq<u8>) -> ChecklistItemModel {
    ChecklistItemModel { id, description, completed: false, completed_at: 0, assigned_to: None }
}

/// The checklist created for proposal `proposal_id` at `now`.
pub open spec fn spec_new_checklist(proposal_id: u64, now: u64) -> UpgradeChecklistModel {
    UpgradeChecklistModel {
        id: proposal_id,
        proposal_id,
        items: standard_items(),
        completion_percentage: 0,
        all_completed: false,
        created_at: now,
    }
}

/// `i` is the first position of an item with id `item_id`.
pub open spec fn first_item_at(items: Seq<ChecklistItemModel>, item_id: u32, i: int) -> bool {
    &&& 0 <= i < items.len()
    &&& items[i].id == item_id
    &&& forall|j: int| 0 <= j < i ==> (#[trigger] items[j]).id != item_id
}

/// The items after completing, at `now`, the first item with id `item_id`;
/// unchanged when there is none.
pub open spec fn items_marked(items: Seq<ChecklistItemModel>, item_id: u32, now: u64) -> Seq<ChecklistItemModel> {
    if exists|i: int| first_item_at(items, item_id, i) {
        let i = choose|i: int| first_item_at(items, item_id, i);
        items.update(i, ChecklistItemModel { completed: true, completed_at: now, ..items[i] })
    } else {
        items
    }
}

/// The number of completed items.
pub open spec fn completed_count(items: Seq<ChecklistItemModel>) -> nat
    decreases items.len(),
{
    if items.len() == 0 {
        0
    } else {
        completed_count(items.drop_last()) + if items.last().completed { 1nat } else { 0nat }
    }
}

/// The checklist with its items replaced by `items` and its completion
/// figures recomputed from them.
pub open spec fn with_items(c: UpgradeChecklistModel, items: Seq<ChecklistItemModel>) -> UpgradeChecklistModel {
    UpgradeChecklistModel {
        items,
        completion_percentage: (completed_count(items) * 100 / items.len()) as u32,
        all_completed: completed_count(items) == items.len(),
        ..c
    }
}

proof fn lemma_completed_count_bound(items: Seq<ChecklistItemModel>)
    ensures
        completed_count(items) <= items.len(),
    decreases items.len(),
{
    if items.len() > 0 {
        lemma_completed_count_bound(items.drop_last());
    }
}

/// Creates, keeps and completes upgrade validation checklists.
pub struct ChecklistManager;

impl ChecklistManager {
    /// Creates the standard checklist of proposal `proposal_id` and keeps it
    /// as the proposal's checklist.
    pub fn create_checklist(store: &mut Storage, now: u64, proposal_id: u64) -> (r: Result<UpgradeChecklist, AutomationError>)
        requires
            old(store).wf(),
        ensures
            final(store).wf(),
            match r {
                Ok(c) => c@ == spec_new_checklist(proposal_id, now),
                Err(_) => false,
            },
            final(store)@ == (StorageModel {
                checklists: old(store)@.checklists.insert(proposal_id, spec_new_checklist(proposal_id, now)),
                ..old(store)@
            }),
    {
        let mut items: Vec<ChecklistItem> = Vec::new();
        items.push(ChecklistItem { id: 1, description: text_of("Code review completed"), completed: false, completed_at: 0, assigned_to: None });
        items.push(ChecklistItem { id: 2, description: text_of("Security audit passed"), completed: false, completed_at: 0, assigned_to: None });
        items.push(ChecklistItem { id: 3, description: text_of("All tests passing"), completed: false, completed_at: 0, assigned_to: None });
        items.push(ChecklistItem { id: 4, description: text_of("Migration validation complete"), completed: false, completed_at: 0, assigned_to: None });
        items.push(ChecklistItem { id: 5, description: text_of("Rollback plan tested"), completed: false, completed_at: 0, assigned_to: None });
        let checklist = UpgradeChecklist {
            id: proposal_id,
            proposal_id,
            items,
            completion_percentage: 0,
            all_completed: false,
            created_at: now,
        };
        proof {
            assert(checklist.items.deep_view() =~= standard_items());
        }
        store.checklists.set(proposal_id, checklist.duplicate());
        Ok(checklist)
    }

    /// Completes, at `now`, the first item with id `item_id` of the checklist
    /// of `proposal_id`, recomputes its completion figures and keeps it.
    pub fn mark_item_complete(store: &mut Storage, now: u64, proposal_id: u64, item_id: u32) -> (r: Result<UpgradeChecklist, AutomationError>)
        requires
            old(store).wf(),
        ensures
            final(store).wf(),
            match r {
                Ok(c) => old(store)@.checklists.contains_key(proposal_id) && c@ == with_items(
                    old(store)@.checklists[proposal_id],
                    items_marked(old(store)@.checklists[proposal_id].items, item_id, now),
                ) && final(store)@ == (StorageModel {
                    checklists: old(store)@.checklists.insert(proposal_id, c@),
                    ..old(store)@
                }),
                Err(e) => !old(store)@.checklists.contains_key(proposal_id) && e == AutomationError::ChecklistValidationFailed
                    && final(store)@ == old(store)@,
            },
    {
        let mut checklist = match store.checklists.get(&proposal_id) {
            Some(c) => c.duplicate(),
            None => return Err(AutomationError::ChecklistValidationFailed),
        };
        let ghost items0 = checklist.items.deep_view();
        let ghost c0 = checklist@;
        proof {
            assert(store@.checklists.contains_key(proposal_id));
        }
        let mut i: usize = 0;
        let mut found = false;
        while i < checklist.items.len() && !found
            invariant
                i <= checklist.items.len(),
                items0 == checklist.items.deep_view(),
                !found ==> forall|j: int| 0 <= j < i ==> (#[trigger] items0[j]).id != item_id,
                found ==> i > 0 && first_item_at(items0, item_id, i - 1),
            decreases checklist.items.len() - i,
        {
            proof {
                assert(items0[i as int] == checklist.items@[i as int]@);
            }
            if checklist.items[i].id == item_id {
                found = true;
            }
            i += 1;
        }
        let ghost marked = items_marked(items0, item_id, now);
        if found {
            let k = i - 1;
            proof {
                let c = choose|c: int| first_item_at(items0, item_id, c);
                if c < k {
                    assert(items0[c].id != item_id);
                } else if c > k {
                    assert(items0[k as int].id != item_id);
                }
            }
            let mut item = checklist.items[k].duplicate();
            item.completed = true;
            item.completed_at = now;
            checklist.items.set(k, item);
            proof {
                assert(checklist.items.deep_view() =~= marked);
            }
        } else {
            proof {
                assert(!exists|c: int| first_item_at(items0, item_id, c));
                assert(checklist.items.deep_view() =~= marked);
            }
        }
        let ghost items = checklist.items.deep_view();
        let mut completed: u32 = 0;
        let mut j: usize = 0;
        proof {
            assert(items.take(0) =~= Seq::<ChecklistItemModel>::empty());
        }
        while j < checklist.items.len()
            invariant
                j <= checklist.items.len() <= 1000,
                items == checklist.items.deep_view(),
                completed == completed_count(items.take(j as int)),
                completed <= j,
            decreases checklist.items.len() - j,
        {
            proof {
                assert(items.take(j + 1).drop_last() =~= items.take(j as int));
                assert(items.take(j + 1).last() == checklist.items@[j as int]@);
            }
            if checklist.items[j].completed {
                completed += 1;
            }
            j += 1;
        }
        proof {
            assert(items.take(items.len() as int) =~= items);
        }
        let len = checklist.items.len() as u32;
        checklist.completion_percentage = (completed * 100) / len;
        checklist.all_completed = completed == len;
        proof {
            assert(checklist@ == with_items(c0, marked));
        }
        store.checklists.set(proposal_id, checklist.duplicate());
        proof {
            assert forall|id: u64| #[trigger] store@.checklists.contains_key(id) implies 0 < store@.checklists[id].items.len() <= 1000 by {
                if id != proposal_id {
                    assert(old(store)@.checklists.contains_key(id));
                }
            }
        }
        Ok(checklist)
    }

    /// Whether every item of the checklist of `proposal_id` is completed.
    pub fn can_proceed(store: &Storage, proposal_id: u64) -> (r: Result<bool, AutomationError>)
        requires
            store.wf(),
        ensures
            r == if store@.checklists.contains_key(proposal_id) {
                Ok(store@.checklists[proposal_id].all_completed)
            } else {
                Err(AutomationError::ChecklistValidationFailed)
            },
    {
        match store.checklists.get(&proposal_id) {
            Some(c) => Ok(c.all_completed),
            None => Err(AutomationError::ChecklistValidationFailed),
        }
    }
}

// ===== Notifications =====

/// The notification sent as message `id` at `now`.
pub open spec fn spec_notification(
    id: u64,
    message_type: u32,
    recipient: Seq<u8>,
    subject: Seq<u8>,
    body: Seq<u8>,
    proposal_id: u64,
    now: u64,
) -> NotificationMessageModel {
    NotificationMessageModel { id, message_type, recipient, subject, body, proposal_id, created_at: now, sent_at: now }
}

/// Sends notifications about upgrades.
pub struct NotificationSystem;

impl NotificationSystem {
    /// Sends a notification under the next notification id.
    pub fn send_notification(
        store: &mut Storage,
        now: u64,
        message_type: u32,
        recipient: Address,
        subject: Vec<u8>,
        body: Vec<u8>,
        proposal_id: u64,
    ) -> (r: Result<NotificationMessage, AutomationError>)
        requires
            old(store).wf(),
            old(store)@.notification_counter < u64::MAX,
        ensures
            final(store).wf(),
            final(store)@ == (StorageModel { notification_counter: (old(store)@.notification_counter + 1) as u64, ..old(store)@ }),
            match r {
                Ok(m) => m@ == spec_notification(
                    (old(store)@.notification_counter + 1) as u64,
                    message_type,
                    recipient@,
                    subject@,
                    body@,
                    proposal_id,
                    now,
                ),
                Err(_) => false,
            },
    {
        let notification_id = Self::next_notification_id(store);
        Ok(NotificationMessage {
            id: notification_id,
            message_type,
            recipient,
            subject,
            body,
            proposal_id,
            created_at: now,
            sent_at: now,
        })
    }

    /// Queues a notification for later delivery; there is no queue yet, so
    /// this accepts it and does nothing.
    pub fn queue_notification(message: NotificationMessage) -> (r: Result<(), AutomationError>)
        ensures
            r is Ok,
    {
        Ok(())
    }

    /// Tells `recipient` that the upgrade of `proposal_id` started.
    pub fn notify_upgrade_start(store: &mut Storage, now: u64, recipient: Address, proposal_id: u64) -> (r: Result<NotificationMessage, AutomationError>)
        requires
            old(store).wf(),
            old(store)@.notification_counter < u64::MAX,
        ensures
            final(store).wf(),
            final(store)@ == (StorageModel { notification_counter: (old(store)@.notification_counter + 1) as u64, ..old(store)@ }),
            match r {
                Ok(m) => m@ == spec_notification(
                    (old(store)@.notification_counter + 1) as u64,
                    0,
                    recipient@,
                    "Upgrade Process Started".spec_bytes(),
                    "Your contract upgrade process has started. Please monitor progress.".spec_bytes(),
                    proposal_id,
                    now,
                ),
                Err(_) => false,
            },
    {
        let subject = text_of("Upgrade Process Started");
        let body = text_of("Your contract upgrade process has started. Please monitor progress.");
        Self::send_notification(store, now, 0, recipient, subject, body, proposal_id)
    }

    /// Tells `recipient` how the upgrade of `proposal_id` ended: an info
    /// message on success, an error message on failure.
    pub fn notify_upgrade_complete(store: &mut Storage, now: u64, recipient: Address, proposal_id: u64, success: bool) -> (r: Result<NotificationMessage, AutomationError>)
        requires
            old(store).wf(),
            old(store)@.notification_counter < u64::MAX,
        ensures
            final(store).wf(),
            final(store)@ == (StorageModel { notification_counter: (old(store)@.notification_counter + 1) as u64, ..old(store)@ }),
            match r {
                Ok(m) => m@ == spec_notification(
                    (old(store)@.notification_counter + 1) as u64,
                    if success { 0 } else { 2 },
                    recipient@,
                    if success { "Upgrade Completed Successfully".spec_bytes() } else { "Upgrade Failed".spec_bytes() },
                    if success {
                        "Your contract has been successfully upgraded.".spec_bytes()
                    } else {
                        "Your contract upgrade encountered an error.".spec_bytes()
                    },
                    proposal_id,
                    now,
                ),
                Err(_) => false,
            },
    {
        let (subject, body) = if success {
            (text_of("Upgrade Completed Successfully"), text_of("Your contract has been successfully upgraded."))
        } else {
            (text_of("Upgrade Failed"), text_of("Your contract upgrade encountered an error."))
        };
        Self::send_notification(store, now, if success { 0 } else { 2 }, recipient, subject, body, proposal_id)
    }

    /// Advances the notification counter and returns its new value.
    fn next_notification_id(store: &mut Storage) -> (id: u64)
        requires
            old(store).wf(),
            old(store)@.notification_counter < u64::MAX,
        ensures
            final(store).wf(),
            id == old(store)@.notification_counter + 1,
            final(store)@ == (StorageModel { notification_counter: id, ..old(store)@ }),
    {
        store.notification_counter = store.notification_counter + 1;
        store.notification_counter
    }
}

// ===== Scripts =====

/// Creates and runs upgrade scripts.
pub struct ScriptManager;

impl ScriptManager {
    /// A new enabled script; `InvalidConfiguration` for a type above 2 or
    /// empty content.
    pub fn create_script(name: Vec<u8>, script_type: u32, content: Vec<u8>) -> (r: Result<UpgradeScript, AutomationError>)
        ensures
            match r {
                Ok(s) => script_type <= 2 && content@.len() > 0 && s@ == (UpgradeScriptModel {
                    id: 1,
                    name: name@,
                    content: content@,
                    script_type,
                    parameters: Seq::empty(),
                    enabled: true,
                }),
                Err(e) => (script_type > 2 || content@.len() == 0) && e == AutomationError::InvalidConfiguration,
            },
    {
        if script_type > 2 {
            return Err(AutomationError::InvalidConfiguration);
        }
        if content.len() == 0 {
            return Err(AutomationError::InvalidConfiguration);
        }
        let script = UpgradeScript { id: 1, name, content, script_type, parameters: Vec::new(), enabled: true };
        proof {
            assert(script.parameters.deep_view() =~= Seq::<Seq<u8>>::empty());
        }
        Ok(script)
    }

    /// Runs a script: a disabled or empty one fails.
    pub fn execute_script(script: &UpgradeScript) -> (r: Result<(), AutomationError>)
        ensures
            r == if !script.enabled || script.content@.len() == 0 {
                Err(AutomationError::ScriptExecutionFailed)
            } else {
                Ok(())
            },
    {
        if !script.enabled {
            return Err(AutomationError::ScriptExecutionFailed);
        }
        if script.content.len() == 0 {
            return Err(AutomationError::ScriptExecutionFailed);
        }
        Ok(())
    }
}

} // verus!
