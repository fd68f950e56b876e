//! The reorganize transaction: copy the classified folders into the
//! destination tree, then optionally delete the originals.
//!
//! The transaction is a state machine driven from outside. At every
//! state, `next_action` names the single confirmation, listing, copy or
//! removal the caller must perform; the caller reports what happened as
//! a `TxEvent` and `step` moves the machine on. Every destructive
//! action is gated behind an explicit operator confirmation, and a
//! failed copy or removal aborts the run at once, leaving earlier work
//! in place — there is no rollback.
//!
//! Progress display is observational only: the caller reads the public
//! position fields; nothing here depends on it.

use vstd::prelude::*;
use vstd::string::*;
use crate::classify::{ClassifiedFolder, views_of};
use crate::correct::{folder_models, FolderModel};
use crate::error::EngineError;
use crate::role::RoleLabel;

verus! {

/// `dir` and `name` joined with the path separator.
pub open spec fn spec_join(dir: Seq<char>, name: Seq<char>) -> Seq<char> {
    dir + "/"@ + name
}

/// Join a directory path and an entry name with the path separator.
pub fn join_path(dir: &str, name: &str) -> (r: String)
    ensures
        r@ == spec_join(dir@, name@),
{
    let mut s = dir.to_owned();
    s.append("/");
    s.append(name);
    s
}

/// The destination root: `base/{object}-{capture}`.
pub open spec fn spec_dest_root(base: Seq<char>, object: Seq<char>, capture: Seq<char>) -> Seq<
    char,
> {
    base + "/"@ + object + "-"@ + capture
}

/// Build the destination root path `base/{object}-{capture}` from the
/// operator-supplied object identifier and capture label.
pub fn dest_root(base: &str, object: &str, capture: &str) -> (r: String)
    ensures
        r@ == spec_dest_root(base@, object@, capture@),
{
    let mut s = base.to_owned();
    s.append("/");
    s.append(object);
    s.append("-");
    s.append(capture);
    s
}

/// The folders with a concrete role, read from position `i` on, in
/// order: `Unknown` folders are dropped, everything else is kept.
pub open spec fn concrete_from(folders: Seq<FolderModel>, i: int) -> Seq<FolderModel>
    decreases folders.len() - i,
{
    if i < 0 || i >= folders.len() {
        Seq::empty()
    } else if folders[i].role.is_concrete() {
        seq![folders[i]] + concrete_from(folders, i + 1)
    } else {
        concrete_from(folders, i + 1)
    }
}

/// The folders that take part in the transaction: those whose role is
/// concrete, in their original order.
pub open spec fn concrete_only(folders: Seq<FolderModel>) -> Seq<FolderModel> {
    concrete_from(folders, 0)
}

/// Every folder the filter keeps has a concrete role.
pub proof fn lemma_concrete_from_all_concrete(folders: Seq<FolderModel>, i: int)
    ensures
        forall|k: int|
            0 <= k < concrete_from(folders, i).len() ==> (#[trigger] concrete_from(folders, i)[k]).role.is_concrete(),
    decreases folders.len() - i,
{
    if 0 <= i < folders.len() {
        lemma_concrete_from_all_concrete(folders, i + 1);
    }
}

/// A folder without a concrete role is absent from the filtered list,
/// and one with a concrete role is kept: the filter drops exactly the
/// `Unknown` folders.
pub proof fn lemma_concrete_from_membership(folders: Seq<FolderModel>, i: int, f: FolderModel)
    requires
        0 <= i <= folders.len(),
    ensures
        concrete_from(folders, i).contains(f) <==> (exists|k: int|
            i <= k < folders.len() && folders[k] == f) && f.role.is_concrete(),
    decreases folders.len() - i,
{
    if i < 0 || i >= folders.len() {
    } else {
        lemma_concrete_from_membership(folders, i + 1, f);
        let rest = concrete_from(folders, i + 1);
        if folders[i].role.is_concrete() {
            let whole = seq![folders[i]] + rest;
            assert forall|x: FolderModel| whole.contains(x) implies x == folders[i]
                || rest.contains(x) by {
                let k = choose|k: int| 0 <= k < whole.len() && whole[k] == x;
                if k > 0 {
                    assert(rest[k - 1] == x);
                }
            }
            if f == folders[i] {
                assert(whole[0] == f);
            }
            if rest.contains(f) {
                let k = choose|k: int| 0 <= k < rest.len() && rest[k] == f;
                assert(whole[k + 1] == f);
            }
        }
    }
}

/// The reorganize plan: where to copy, and which folders take part.
/// Only folders with a concrete role are in it; `Unknown` folders are
/// never copied and never deleted.
pub struct ReorganizePlan {
    pub dest_root: String,
    pub folders: Vec<ClassifiedFolder>,
}

/// Build the plan: the destination root `base/{object}-{capture}` and
/// the classified folders with a concrete role, in their given order.
pub fn make_plan(
    base: &str,
    folders: Vec<ClassifiedFolder>,
    object_name: &str,
    capture_label: &str,
) -> (p: ReorganizePlan)
    ensures
        p.dest_root@ == spec_dest_root(base@, object_name@, capture_label@),
        folder_models(p.folders@) == concrete_only(folder_models(folders@)),
        forall|i: int|
            0 <= i < p.folders@.len() ==> (#[trigger] p.folders@[i]@).role.is_concrete(),
{
    let ghost allf = folders@;
    let ghost orig = folder_models(folders@);
    let dest = dest_root(base, object_name, capture_label);
    let mut rest = folders;
    let n0: usize = rest.len();
    let mut kept: Vec<ClassifiedFolder> = Vec::new();
    let mut i: usize = 0;
    proof {
        assert(rest@ =~= allf.subrange(0, allf.len() as int));
        assert(folder_models(kept@) + concrete_from(orig, 0) =~= concrete_from(orig, 0));
    }
    while rest.len() > 0
        invariant
            n0 == orig.len(),
            orig == folder_models(allf),
            i + rest@.len() == n0,
            rest@ == allf.subrange(i as int, n0 as int),
            concrete_only(orig) == folder_models(kept@) + concrete_from(orig, i as int),
        decreases rest@.len(),
    {
        let ghost rest_old = rest@;
        let ghost kept_old = folder_models(kept@);
        let x = rest.remove(0);
        proof {
            assert(rest_old[0] == allf[i as int]);
            assert(rest@ =~= allf.subrange(i + 1, n0 as int));
            assert(orig[i as int] == allf[i as int]@);
        }
        if !matches!(x.role, RoleLabel::Unknown) {
            kept.push(x);
            proof {
                assert(folder_models(kept@) =~= kept_old.push(orig[i as int]));
                assert(concrete_from(orig, i as int) =~= seq![orig[i as int]] + concrete_from(
                    orig,
                    i + 1,
                ));
                assert(kept_old + concrete_from(orig, i as int) =~= folder_models(kept@)
                    + concrete_from(orig, i + 1));
            }
        } else {
            proof {
                assert(concrete_from(orig, i as int) =~= concrete_from(orig, i + 1));
            }
        }
        i += 1;
    }
    proof {
        assert(concrete_from(orig, i as int) =~= Seq::<FolderModel>::empty());
        assert(folder_models(kept@) + Seq::<FolderModel>::empty() =~= folder_models(kept@));
        lemma_concrete_from_all_concrete(orig, 0);
        assert forall|j: int| 0 <= j < kept@.len() implies (#[trigger] kept@[j]@).role.is_concrete() by {
            assert(folder_models(kept@)[j] == kept@[j]@);
        }
    }
    ReorganizePlan { dest_root: dest, folders: kept }
}

/// Where the transaction stands: which action is pending.
#[derive(Clone, Copy, Debug, PartialEq, Eq, Structural)]
pub enum TxPhase {
    /// Waiting for the operator to confirm the copy should proceed.
    ConfirmStart,
    /// The destination root is to be created.
    CreateDest,
    /// The destination already exists; waiting for the operator to
    /// confirm continuing into it.
    ConfirmExisting,
    /// The role subdirectory for this folder is to be made to exist.
    EnsureRoleDir { folder: usize },
    /// This folder's immediate entries are to be listed.
    ListSource { folder: usize },
    /// Entry `next` of the current listing is to be copied.
    CopyFile { folder: usize, next: usize },
    /// All folders are copied; waiting for the deletion confirmation.
    ConfirmDelete,
    /// This folder's original directory tree is to be removed.
    RemoveSource { folder: usize },
    /// The transaction ended successfully.
    Done,
    /// The transaction aborted with this error.
    Failed { error: EngineError },
}

/// Outcome of attempting to create the destination root.
#[derive(Clone, Copy, Debug, PartialEq, Eq, Structural)]
pub enum CreateDirOutcome {
    Created,
    AlreadyExists,
    Failed,
}

/// What happened when the caller performed the pending action.
pub enum TxEvent {
    /// The operator's answer to the pending confirmation.
    Answered(bool),
    /// Result of creating the destination root.
    DestCreated(CreateDirOutcome),
    /// Whether the role subdirectory now exists.
    RoleDirReady(bool),
    /// The source folder's entry names, or `None` on a listing failure.
    Listed(Option<Vec<String>>),
    /// Whether the pending file copy succeeded.
    Copied(bool),
    /// Whether the pending directory removal succeeded.
    Removed(bool),
}

/// Mathematical image of an event.
pub enum TxEventModel {
    Answered(bool),
    DestCreated(CreateDirOutcome),
    RoleDirReady(bool),
    Listed(Option<Seq<Seq<char>>>),
    Copied(bool),
    Removed(bool),
}

impl View for TxEvent {
    type V = TxEventModel;

    open spec fn view(&self) -> TxEventModel {
        match self {
            TxEvent::Answered(b) => TxEventModel::Answered(*b),
            TxEvent::DestCreated(o) => TxEventModel::DestCreated(*o),
            TxEvent::RoleDirReady(b) => TxEventModel::RoleDirReady(*b),
            TxEvent::Listed(r) => TxEventModel::Listed(
                match r {
                    Some(v) => Some(views_of(v@)),
                    None => None,
                },
            ),
            TxEvent::Copied(b) => TxEventModel::Copied(*b),
            TxEvent::Removed(b) => TxEventModel::Removed(*b),
        }
    }
}

/// The single action the caller must perform next.
pub enum TxAction {
    /// Ask the operator to confirm the copy should proceed.
    AskProceed,
    /// Create the destination root directory.
    MakeDest { path: String },
    /// Ask whether to continue into the existing destination.
    AskUseExisting { path: String },
    /// Make sure this role subdirectory exists, creating it if absent.
    EnsureRoleDir { path: String },
    /// List the immediate entries of this source folder.
    ListSource { path: String },
    /// Copy one file, byte for byte, keeping its name.
    CopyEntry { from: String, to: String },
    /// Ask whether the original folders should be deleted.
    AskDelete,
    /// Remove this original directory tree.
    RemoveSource { path: String },
    /// Nothing is left to do: the transaction succeeded.
    Finish,
    /// The transaction aborted: surface this error.
    Fail { error: EngineError },
}

/// Mathematical image of an action.
pub enum TxActionModel {
    AskProceed,
    MakeDest { path: Seq<char> },
    AskUseExisting { path: Seq<char> },
    EnsureRoleDir { path: Seq<char> },
    ListSource { path: Seq<char> },
    CopyEntry { from: Seq<char>, to: Seq<char> },
    AskDelete,
    RemoveSource { path: Seq<char> },
    Finish,
    Fail { error: EngineError },
}

impl View for TxAction {
    type V = TxActionModel;

    open spec fn view(&self) -> TxActionModel {
        match self {
            TxAction::AskProceed => TxActionModel::AskProceed,
            TxAction::MakeDest { path } => TxActionModel::MakeDest { path: path@ },
            TxAction::AskUseExisting { path } => TxActionModel::AskUseExisting { path: path@ },
            TxAction::EnsureRoleDir { path } => TxActionModel::EnsureRoleDir { path: path@ },
            TxAction::ListSource { path } => TxActionModel::ListSource { path: path@ },
            TxAction::CopyEntry { from, to } => TxActionModel::CopyEntry {
                from: from@,
                to: to@,
            },
            TxAction::AskDelete => TxActionModel::AskDelete,
            TxAction::RemoveSource { path } => TxActionModel::RemoveSource { path: path@ },
            TxAction::Finish => TxActionModel::Finish,
            TxAction::Fail { error } => TxActionModel::Fail { error: *error },
        }
    }
}

/// An action that mutates the filesystem. Confirmations, listings and
/// the terminal actions do not.
pub open spec fn is_mutating(a: TxActionModel) -> bool {
    match a {
        TxActionModel::MakeDest { .. } => true,
        TxActionModel::EnsureRoleDir { .. } => true,
        TxActionModel::CopyEntry { .. } => true,
        TxActionModel::RemoveSource { .. } => true,
        _ => false,
    }
}

/// Mathematical image of a whole transaction.
pub struct TxModel {
    pub dest: Seq<char>,
    pub folders: Seq<FolderModel>,
    pub entries: Seq<Seq<char>>,
    pub phase: TxPhase,
}

/// Validity of a transaction state: every folder in it has a concrete
/// role, and the phase's positions are in range.
pub open spec fn tx_wf(m: TxModel) -> bool {
    &&& forall|i: int| 0 <= i < m.folders.len() ==> (#[trigger] m.folders[i]).role.is_concrete()
    &&& match m.phase {
        TxPhase::EnsureRoleDir { folder } => folder < m.folders.len(),
        TxPhase::ListSource { folder } => folder < m.folders.len(),
        TxPhase::CopyFile { folder, next } => folder < m.folders.len() && next < m.entries.len(),
        TxPhase::RemoveSource { folder } => folder < m.folders.len(),
        _ => true,
    }
}

/// The first copying phase: the first folder's role directory, or the
/// deletion question when there is nothing to copy.
pub open spec fn start_copy_phase(nfolders: nat) -> TxPhase {
    if nfolders > 0 {
        TxPhase::EnsureRoleDir { folder: 0 }
    } else {
        TxPhase::ConfirmDelete
    }
}

/// The phase after folder `folder` is fully copied: the next folder's
/// role directory, or the deletion question after the last.
pub open spec fn after_folder_phase(nfolders: nat, folder: usize) -> TxPhase {
    if folder + 1 < nfolders {
        TxPhase::EnsureRoleDir { folder: (folder + 1) as usize }
    } else {
        TxPhase::ConfirmDelete
    }
}

/// One transition of the transaction: from a state and the report of
/// the performed action to the next state. A report that does not
/// answer the pending action changes nothing.
pub open spec fn tx_step(m: TxModel, e: TxEventModel) -> TxModel {
    match (m.phase, e) {
        (TxPhase::ConfirmStart, TxEventModel::Answered(yes)) => TxModel {
            phase: if yes {
                TxPhase::CreateDest
            } else {
                TxPhase::Failed { error: EngineError::Cancelled }
            },
            ..m
        },
        (TxPhase::CreateDest, TxEventModel::DestCreated(outcome)) => TxModel {
            phase: match outcome {
                CreateDirOutcome::Created => start_copy_phase(m.folders.len()),
                CreateDirOutcome::AlreadyExists => TxPhase::ConfirmExisting,
                CreateDirOutcome::Failed => TxPhase::Failed { error: EngineError::Io },
            },
            ..m
        },
        (TxPhase::ConfirmExisting, TxEventModel::Answered(yes)) => TxModel {
            phase: if yes {
                start_copy_phase(m.folders.len())
            } else {
                TxPhase::Failed { error: EngineError::Cancelled }
            },
            ..m
        },
        (TxPhase::EnsureRoleDir { folder }, TxEventModel::RoleDirReady(ok)) => TxModel {
            phase: if ok {
                TxPhase::ListSource { folder }
            } else {
                TxPhase::Failed { error: EngineError::Io }
            },
            ..m
        },
        (TxPhase::ListSource { folder }, TxEventModel::Listed(r)) => match r {
            Some(es) => TxModel {
                entries: es,
                phase: if es.len() > 0 {
                    TxPhase::CopyFile { folder, next: 0 }
                } else {
                    after_folder_phase(m.folders.len(), folder)
                },
                ..m
            },
            None => TxModel { phase: TxPhase::Failed { error: EngineError::Io }, ..m },
        },
        (TxPhase::CopyFile { folder, next }, TxEventModel::Copied(ok)) => TxModel {
            phase: if !ok {
                TxPhase::Failed { error: EngineError::Io }
            } else if next + 1 < m.entries.len() {
                TxPhase::CopyFile { folder, next: (next + 1) as usize }
            } else {
                after_folder_phase(m.folders.len(), folder)
            },
            ..m
        },
        (TxPhase::ConfirmDelete, TxEventModel::Answered(yes)) => TxModel {
            phase: if !yes {
                TxPhase::Done
            } else if m.folders.len() > 0 {
                TxPhase::RemoveSource { folder: 0 }
            } else {
                TxPhase::Done
            },
            ..m
        },
        (TxPhase::RemoveSource { folder }, TxEventModel::Removed(ok)) => TxModel {
            phase: if !ok {
                TxPhase::Failed { error: EngineError::Io }
            } else if folder + 1 < m.folders.len() {
                TxPhase::RemoveSource { folder: (folder + 1) as usize }
            } else {
                TxPhase::Done
            },
            ..m
        },
        _ => m,
    }
}

/// The action pending in a state.
pub open spec fn tx_action(m: TxModel) -> TxActionModel {
    match m.phase {
        TxPhase::ConfirmStart => TxActionModel::AskProceed,
        TxPhase::CreateDest => TxActionModel::MakeDest { path: m.dest },
        TxPhase::ConfirmExisting => TxActionModel::AskUseExisting { path: m.dest },
        TxPhase::EnsureRoleDir { folder } => if folder < m.folders.len() {
            TxActionModel::EnsureRoleDir {
                path: spec_join(m.dest, m.folders[folder as int].role.spec_name()),
            }
        } else {
            TxActionModel::Finish
        },
        TxPhase::ListSource { folder } => if folder < m.folders.len() {
            TxActionModel::ListSource { path: m.folders[folder as int].path }
        } else {
            TxActionModel::Finish
        },
        TxPhase::CopyFile { folder, next } => if folder < m.folders.len() && next
            < m.entries.len() {
            TxActionModel::CopyEntry {
                from: spec_join(m.folders[folder as int].path, m.entries[next as int]),
                to: spec_join(
                    spec_join(m.dest, m.folders[folder as int].role.spec_name()),
                    m.entries[next as int],
                ),
            }
        } else {
            TxActionModel::Finish
        },
        TxPhase::ConfirmDelete => TxActionModel::AskDelete,
        TxPhase::RemoveSource { folder } => if folder < m.folders.len() {
            TxActionModel::RemoveSource { path: m.folders[folder as int].path }
        } else {
            TxActionModel::Finish
        },
        TxPhase::Done => TxActionModel::Finish,
        TxPhase::Failed { error } => TxActionModel::Fail { error },
    }
}

/// Every transition keeps the state valid, and never touches the
/// destination or the folder list.
pub proof fn lemma_step_preserves_wf(m: TxModel, e: TxEventModel)
    requires
        tx_wf(m),
    ensures
        tx_wf(tx_step(m, e)),
        tx_step(m, e).dest == m.dest,
        tx_step(m, e).folders == m.folders,
{
}

/// The state after a sequence of reported events.
pub open spec fn tx_run(m: TxModel, evs: Seq<TxEventModel>) -> TxModel
    decreases evs.len(),
{
    if evs.len() == 0 {
        m
    } else {
        tx_run(tx_step(m, evs[0]), evs.drop_first())
    }
}

/// The actions the caller performed along a run: at each step, the
/// action pending in the state the event answered.
pub open spec fn tx_trace(m: TxModel, evs: Seq<TxEventModel>) -> Seq<TxActionModel>
    decreases evs.len(),
{
    if evs.len() == 0 {
        Seq::empty()
    } else {
        seq![tx_action(m)] + tx_trace(tx_step(m, evs[0]), evs.drop_first())
    }
}

/// Runs and traces compose over concatenated event sequences.
pub proof fn lemma_run_append(m: TxModel, a: Seq<TxEventModel>, b: Seq<TxEventModel>)
    ensures
        tx_run(m, a + b) == tx_run(tx_run(m, a), b),
        tx_trace(m, a + b) == tx_trace(m, a) + tx_trace(tx_run(m, a), b),
    decreases a.len(),
{
    if a.len() == 0 {
        assert(a + b =~= b);
        assert(tx_trace(m, a) + tx_trace(m, b) =~= tx_trace(m, b));
    } else {
        assert((a + b)[0] == a[0]);
        assert((a + b).drop_first() =~= a.drop_first() + b);
        lemma_run_append(tx_step(m, a[0]), a.drop_first(), b);
        assert(seq![tx_action(m)] + (tx_trace(tx_step(m, a[0]), a.drop_first()) + tx_trace(
            tx_run(m, a),
            b,
        )) =~= (seq![tx_action(m)] + tx_trace(tx_step(m, a[0]), a.drop_first())) + tx_trace(
            tx_run(m, a),
            b,
        ));
    }
}

/// Once the transaction is over — success or abort — nothing moves it
/// again, and nothing mutating is ever asked of the caller.
pub proof fn lemma_terminal_is_absorbing(m: TxModel, evs: Seq<TxEventModel>)
    requires
        m.phase is Done || m.phase is Failed,
    ensures
        tx_run(m, evs) == m,
        tx_trace(m, evs).len() == evs.len(),
        forall|k: int| 0 <= k < evs.len() ==> !is_mutating(#[trigger] tx_trace(m, evs)[k]),
    decreases evs.len(),
{
    if evs.len() > 0 {
        assert(tx_step(m, evs[0]) == m);
        lemma_terminal_is_absorbing(m, evs.drop_first());
        assert forall|k: int| 0 <= k < evs.len() implies !is_mutating(
            #[trigger] tx_trace(m, evs)[k],
        ) by {
            if k > 0 {
                assert(tx_trace(m, evs)[k] == tx_trace(m, evs.drop_first())[k - 1]);
            }
        }
    }
}

/// Declining the initial proceed confirmation cancels the whole run
/// before anything touched the disk: the transaction ends in
/// `Failed(Cancelled)` and no action of the run — neither before the
/// answer nor after it — mutates the filesystem, so the destination is
/// never created.
pub proof fn lemma_decline_proceed(m: TxModel, evs: Seq<TxEventModel>)
    requires
        m.phase == TxPhase::ConfirmStart,
        evs.len() > 0,
        evs[0] == TxEventModel::Answered(false),
    ensures
        tx_run(m, evs).phase == (TxPhase::Failed { error: EngineError::Cancelled }),
        tx_trace(m, evs).len() == evs.len(),
        forall|k: int| 0 <= k < evs.len() ==> !is_mutating(#[trigger] tx_trace(m, evs)[k]),
{
    let m1 = tx_step(m, evs[0]);
    lemma_terminal_is_absorbing(m1, evs.drop_first());
    assert forall|k: int| 0 <= k < evs.len() implies !is_mutating(
        #[trigger] tx_trace(m, evs)[k],
    ) by {
        if k > 0 {
            assert(tx_trace(m, evs)[k] == tx_trace(m1, evs.drop_first())[k - 1]);
        }
    }
}

/// Declining the final deletion confirmation ends the transaction
/// successfully and nothing mutating is asked from that point on: every
/// original source folder is left in place.
pub proof fn lemma_decline_delete(m: TxModel, evs: Seq<TxEventModel>)
    requires
        m.phase == TxPhase::ConfirmDelete,
        evs.len() > 0,
        evs[0] == TxEventModel::Answered(false),
    ensures
        tx_run(m, evs).phase == TxPhase::Done,
        tx_trace(m, evs).len() == evs.len(),
        forall|k: int| 0 <= k < evs.len() ==> !is_mutating(#[trigger] tx_trace(m, evs)[k]),
{
    let m1 = tx_step(m, evs[0]);
    lemma_terminal_is_absorbing(m1, evs.drop_first());
    assert forall|k: int| 0 <= k < evs.len() implies !is_mutating(
        #[trigger] tx_trace(m, evs)[k],
    ) by {
        if k > 0 {
            assert(tx_trace(m, evs)[k] == tx_trace(m1, evs.drop_first())[k - 1]);
        }
    }
}

/// `n` reports of a successful removal.
pub open spec fn all_removed_events(n: nat) -> Seq<TxEventModel> {
    Seq::new(n, |k: int| TxEventModel::Removed(true))
}

/// The removals of the folders from position `f` on, in order.
pub open spec fn removal_actions(folders: Seq<FolderModel>, f: int) -> Seq<TxActionModel>
    decreases folders.len() - f,
{
    if f < 0 || f >= folders.len() {
        Seq::empty()
    } else {
        seq![TxActionModel::RemoveSource { path: folders[f].path }] + removal_actions(
            folders,
            f + 1,
        )
    }
}

/// From the first removal on, the transaction removes exactly the
/// original directories of its folders, one each, in order, and ends
/// successfully.
pub proof fn lemma_removal_segment(m: TxModel, f: usize)
    requires
        tx_wf(m),
        m.folders.len() <= usize::MAX,
        m.phase == (TxPhase::RemoveSource { folder: f }),
    ensures
        ({
            let evs = all_removed_events((m.folders.len() - f) as nat);
            &&& tx_run(m, evs) == (TxModel { phase: TxPhase::Done, ..m })
            &&& tx_trace(m, evs) == removal_actions(m.folders, f as int)
        }),
    decreases m.folders.len() - f,
{
    let evs = all_removed_events((m.folders.len() - f) as nat);
    assert(evs[0] == TxEventModel::Removed(true));
    let m1 = tx_step(m, evs[0]);
    if f + 1 < m.folders.len() {
        assert(m1 == TxModel { phase: TxPhase::RemoveSource { folder: (f + 1) as usize }, ..m });
        lemma_removal_segment(m1, (f + 1) as usize);
        assert(evs.drop_first() =~= all_removed_events((m.folders.len() - (f + 1)) as nat));
        assert(tx_run(m1, evs.drop_first()) == TxModel { phase: TxPhase::Done, ..m });
        assert(tx_trace(m1, evs.drop_first()) == removal_actions(m.folders, f + 1));
        assert(tx_trace(m, evs) == seq![tx_action(m)] + removal_actions(m.folders, f + 1));
        assert(tx_trace(m, evs) == removal_actions(m.folders, f as int));
    } else {
        assert(m1 == TxModel { phase: TxPhase::Done, ..m });
        assert(evs.drop_first().len() == 0);
        assert(tx_run(m1, evs.drop_first()) == m1);
        assert(tx_trace(m1, evs.drop_first()) == Seq::<TxActionModel>::empty());
        assert(removal_actions(m.folders, f + 1) =~= Seq::<TxActionModel>::empty());
        assert(tx_trace(m, evs) =~= removal_actions(m.folders, f as int));
    }
}

/// Accepting the deletion confirmation removes exactly the original
/// directories of the folders in the plan — all of which have concrete
/// roles, so `Unknown` originals are never among them — and ends the
/// transaction successfully.
pub proof fn lemma_accept_delete(m: TxModel)
    requires
        tx_wf(m),
        m.folders.len() <= usize::MAX,
        m.phase == TxPhase::ConfirmDelete,
    ensures
        ({
            let evs = seq![TxEventModel::Answered(true)] + all_removed_events(m.folders.len());
            &&& tx_run(m, evs) == (TxModel { phase: TxPhase::Done, ..m })
            &&& tx_trace(m, evs) == seq![TxActionModel::AskDelete] + removal_actions(
                m.folders,
                0,
            )
        }),
{
    let a = seq![TxEventModel::Answered(true)];
    let b = all_removed_events(m.folders.len());
    let m1 = tx_step(m, a[0]);
    lemma_run_append(m, a, b);
    assert(a.drop_first().len() == 0);
    assert(tx_run(m1, a.drop_first()) == m1);
    assert(tx_run(m, a) == m1);
    assert(tx_trace(m1, a.drop_first()) == Seq::<TxActionModel>::empty());
    assert(tx_trace(m, a) =~= seq![TxActionModel::AskDelete]);
    if m.folders.len() > 0 {
        lemma_removal_segment(m1, 0);
        assert(tx_run(m1, b) == TxModel { phase: TxPhase::Done, ..m });
    } else {
        assert(b =~= Seq::<TxEventModel>::empty());
        assert(removal_actions(m.folders, 0) =~= Seq::<TxActionModel>::empty());
        assert(m1 == TxModel { phase: TxPhase::Done, ..m });
    }
}

/// `n` reports of a successful file copy.
pub open spec fn all_copied_events(n: nat) -> Seq<TxEventModel> {
    Seq::new(n, |k: int| TxEventModel::Copied(true))
}

/// The copies of one folder's entries from position `k` on: each entry
/// goes from the source folder into the folder's role subdirectory
/// under the destination, keeping its name.
pub open spec fn folder_copy_actions(
    dest: Seq<char>,
    fm: FolderModel,
    entries: Seq<Seq<char>>,
    k: int,
) -> Seq<TxActionModel>
    decreases entries.len() - k,
{
    if k < 0 || k >= entries.len() {
        Seq::empty()
    } else {
        seq![
            (TxActionModel::CopyEntry {
                from: spec_join(fm.path, entries[k]),
                to: spec_join(spec_join(dest, fm.role.spec_name()), entries[k]),
            }),
        ] + folder_copy_actions(dest, fm, entries, k + 1)
    }
}

/// While copying one folder, every remaining entry is copied in listing
/// order, and the transaction moves on to the next folder (or to the
/// deletion question after the last).
pub proof fn lemma_copy_files_segment(m: TxModel, f: usize, k: usize)
    requires
        tx_wf(m),
        m.entries.len() <= usize::MAX,
        m.phase == (TxPhase::CopyFile { folder: f, next: k }),
    ensures
        ({
            let evs = all_copied_events((m.entries.len() - k) as nat);
            &&& tx_run(m, evs) == (TxModel {
                phase: after_folder_phase(m.folders.len(), f),
                ..m
            })
            &&& tx_trace(m, evs) == folder_copy_actions(
                m.dest,
                m.folders[f as int],
                m.entries,
                k as int,
            )
        }),
    decreases m.entries.len() - k,
{
    let evs = all_copied_events((m.entries.len() - k) as nat);
    assert(evs[0] == TxEventModel::Copied(true));
    let m1 = tx_step(m, evs[0]);
    if k + 1 < m.entries.len() {
        assert(m1 == TxModel {
            phase: TxPhase::CopyFile { folder: f, next: (k + 1) as usize },
            ..m
        });
        lemma_copy_files_segment(m1, f, (k + 1) as usize);
        assert(evs.drop_first() =~= all_copied_events((m.entries.len() - (k + 1)) as nat));
        assert(tx_run(m1, evs.drop_first()) == TxModel {
            phase: after_folder_phase(m.folders.len(), f),
            ..m
        });
        assert(tx_trace(m1, evs.drop_first()) == folder_copy_actions(
            m.dest,
            m.folders[f as int],
            m.entries,
            k + 1,
        ));
        assert(tx_trace(m, evs) == seq![tx_action(m)] + folder_copy_actions(
            m.dest,
            m.folders[f as int],
            m.entries,
            k + 1,
        ));
        assert(tx_trace(m, evs) == folder_copy_actions(
            m.dest,
            m.folders[f as int],
            m.entries,
            k as int,
        ));
    } else {
        assert(m1 == TxModel { phase: after_folder_phase(m.folders.len(), f), ..m });
        assert(evs.drop_first().len() == 0);
        assert(tx_run(m1, evs.drop_first()) == m1);
        assert(tx_trace(m1, evs.drop_first()) == Seq::<TxActionModel>::empty());
        assert(folder_copy_actions(m.dest, m.folders[f as int], m.entries, k + 1) =~= Seq::<
            TxActionModel,
        >::empty());
        assert(tx_trace(m, evs) =~= folder_copy_actions(
            m.dest,
            m.folders[f as int],
            m.entries,
            k as int,
        ));
    }
}

/// The reports of a fully successful copy phase from folder `f` on:
/// each role directory ready, each listing delivered, every copy
/// succeeding.
pub open spec fn copy_success_events(listings: Seq<Seq<Seq<char>>>, f: int) -> Seq<TxEventModel>
    decreases listings.len() - f,
{
    if f < 0 || f >= listings.len() {
        Seq::empty()
    } else {
        (seq![
            TxEventModel::RoleDirReady(true),
            TxEventModel::Listed(Some(listings[f])),
        ] + all_copied_events(listings[f].len())) + copy_success_events(listings, f + 1)
    }
}

/// The actions of a fully successful copy phase from folder `f` on:
/// for each folder, its role directory is ensured, its entries are
/// listed, and every entry is copied into the role subdirectory under
/// the destination, in listing order.
pub open spec fn copy_success_trace(
    dest: Seq<char>,
    folders: Seq<FolderModel>,
    listings: Seq<Seq<Seq<char>>>,
    f: int,
) -> Seq<TxActionModel>
    decreases listings.len() - f,
{
    if f < 0 || f >= listings.len() || f >= folders.len() {
        Seq::empty()
    } else {
        (seq![
            TxActionModel::EnsureRoleDir { path: spec_join(dest, folders[f].role.spec_name()) },
            TxActionModel::ListSource { path: folders[f].path },
        ] + folder_copy_actions(dest, folders[f], listings[f], 0)) + copy_success_trace(
            dest,
            folders,
            listings,
            f + 1,
        )
    }
}

/// The whole copy phase, from folder `f` to the last: when every role
/// directory, listing and copy succeeds, the transaction performs
/// exactly the copy actions of `copy_success_trace` and arrives at the
/// deletion question with its folders and destination untouched.
pub proof fn lemma_copy_phase(m: TxModel, listings: Seq<Seq<Seq<char>>>, f: usize)
    requires
        tx_wf(m),
        m.folders.len() <= usize::MAX,
        forall|i: int| 0 <= i < listings.len() ==> (#[trigger] listings[i]).len() <= usize::MAX,
        m.phase == (TxPhase::EnsureRoleDir { folder: f }),
        listings.len() == m.folders.len(),
    ensures
        ({
            let evs = copy_success_events(listings, f as int);
            let fin = tx_run(m, evs);
            &&& fin.phase == TxPhase::ConfirmDelete
            &&& fin.dest == m.dest
            &&& fin.folders == m.folders
            &&& tx_trace(m, evs) == copy_success_trace(m.dest, m.folders, listings, f as int)
        }),
    decreases m.folders.len() - f,
{
    let e1 = seq![
        TxEventModel::RoleDirReady(true),
        TxEventModel::Listed(Some(listings[f as int])),
    ];
    let ec = all_copied_events(listings[f as int].len());
    let rest = copy_success_events(listings, f + 1);
    let evs = copy_success_events(listings, f as int);
    assert(evs == (e1 + ec) + rest);

    let ma = tx_step(m, e1[0]);
    let mb = tx_step(ma, e1[1]);
    let e2 = e1.drop_first();
    assert(ma == TxModel { phase: TxPhase::ListSource { folder: f }, ..m });
    assert(e2[0] == e1[1] && e2.len() == 1);
    assert(e2.drop_first().len() == 0);
    assert(tx_run(mb, e2.drop_first()) == mb);
    assert(tx_run(ma, e2) == mb);
    assert(tx_run(m, e1) == mb);
    assert(tx_trace(mb, e2.drop_first()) =~= Seq::<TxActionModel>::empty());
    assert(tx_trace(ma, e2) =~= seq![tx_action(ma)]);
    assert(tx_trace(m, e1) =~= seq![tx_action(m), tx_action(ma)]);

    let mc = TxModel {
        phase: after_folder_phase(m.folders.len(), f),
        entries: listings[f as int],
        ..m
    };
    if listings[f as int].len() > 0 {
        assert(mb == TxModel {
            phase: TxPhase::CopyFile { folder: f, next: 0 },
            entries: listings[f as int],
            ..m
        });
        lemma_copy_files_segment(mb, f, 0);
        assert(tx_run(mb, ec) == mc);
        assert(tx_trace(mb, ec) == folder_copy_actions(
            m.dest,
            m.folders[f as int],
            listings[f as int],
            0,
        ));
    } else {
        assert(mb == mc);
        assert(ec =~= Seq::<TxEventModel>::empty());
        assert(tx_trace(mb, ec) =~= folder_copy_actions(
            m.dest,
            m.folders[f as int],
            listings[f as int],
            0,
        ));
    }
    lemma_run_append(m, e1, ec);
    assert(tx_run(m, e1 + ec) == mc);
    lemma_run_append(m, e1 + ec, rest);

    if f + 1 < m.folders.len() {
        assert(mc.folders == m.folders && mc.dest == m.dest);
        assert(mc.phase == (TxPhase::EnsureRoleDir { folder: (f + 1) as usize }));
        assert(tx_wf(mc));
        lemma_copy_phase(mc, listings, (f + 1) as usize);
    } else {
        assert(mc.phase == TxPhase::ConfirmDelete);
        assert(rest =~= Seq::<TxEventModel>::empty());
        assert(copy_success_trace(m.dest, m.folders, listings, f + 1) =~= Seq::<
            TxActionModel,
        >::empty());
    }
    assert(tx_trace(m, evs) == (tx_trace(m, e1) + tx_trace(mb, ec)) + tx_trace(mc, rest));
    assert(tx_trace(m, evs) =~= copy_success_trace(m.dest, m.folders, listings, f as int));
}

/// The reports of a fully successful run: copy confirmed, destination
/// created fresh, every folder copied, deletion declined.
pub open spec fn successful_run_events(listings: Seq<Seq<Seq<char>>>) -> Seq<TxEventModel> {
    (seq![
        TxEventModel::Answered(true),
        TxEventModel::DestCreated(CreateDirOutcome::Created),
    ] + copy_success_events(listings, 0)) + seq![TxEventModel::Answered(false)]
}

/// A fully successful run into a fresh destination, with the originals
/// kept: the transaction ends successfully and performs exactly the
/// confirmations, the creation of the destination root, and — folder by
/// folder — the role directory, the listing, and one copy per listed
/// entry into the folder's role subdirectory. In particular no removal
/// is ever asked for, and nothing is copied for folders outside the
/// plan.
pub proof fn lemma_successful_run(m: TxModel, listings: Seq<Seq<Seq<char>>>)
    requires
        tx_wf(m),
        m.folders.len() <= usize::MAX,
        forall|i: int| 0 <= i < listings.len() ==> (#[trigger] listings[i]).len() <= usize::MAX,
        m.phase == TxPhase::ConfirmStart,
        listings.len() == m.folders.len(),
    ensures
        ({
            let evs = successful_run_events(listings);
            &&& tx_run(m, evs).phase == TxPhase::Done
            &&& tx_trace(m, evs) == (seq![
                TxActionModel::AskProceed,
                (TxActionModel::MakeDest { path: m.dest }),
            ] + copy_success_trace(m.dest, m.folders, listings, 0)) + seq![
                TxActionModel::AskDelete,
            ]
        }),
{
    let e1 = seq![
        TxEventModel::Answered(true),
        TxEventModel::DestCreated(CreateDirOutcome::Created),
    ];
    let ecopy = copy_success_events(listings, 0);
    let elast = seq![TxEventModel::Answered(false)];
    let evs = successful_run_events(listings);
    assert(evs == (e1 + ecopy) + elast);

    let ma = tx_step(m, e1[0]);
    let mb = tx_step(ma, e1[1]);
    let e2 = e1.drop_first();
    assert(ma == TxModel { phase: TxPhase::CreateDest, ..m });
    assert(e2[0] == e1[1] && e2.len() == 1);
    assert(e2.drop_first().len() == 0);
    assert(tx_run(mb, e2.drop_first()) == mb);
    assert(tx_run(ma, e2) == mb);
    assert(tx_run(m, e1) == mb);
    assert(tx_trace(mb, e2.drop_first()) =~= Seq::<TxActionModel>::empty());
    assert(tx_trace(ma, e2) =~= seq![tx_action(ma)]);
    assert(tx_trace(m, e1) =~= seq![
        TxActionModel::AskProceed,
        (TxActionModel::MakeDest { path: m.dest }),
    ]);

    let mc = tx_run(mb, ecopy);
    if m.folders.len() > 0 {
        assert(mb == TxModel { phase: TxPhase::EnsureRoleDir { folder: 0 }, ..m });
        lemma_copy_phase(mb, listings, 0);
    } else {
        assert(mb == TxModel { phase: TxPhase::ConfirmDelete, ..m });
        assert(ecopy =~= Seq::<TxEventModel>::empty());
        assert(copy_success_trace(m.dest, m.folders, listings, 0) =~= Seq::<
            TxActionModel,
        >::empty());
    }
    assert(mc.phase == TxPhase::ConfirmDelete);
    assert(tx_run(mb, ecopy) == mc);
    assert(tx_trace(mb, ecopy) == copy_success_trace(m.dest, m.folders, listings, 0));

    let md = tx_step(mc, elast[0]);
    assert(md.phase == TxPhase::Done);
    assert(elast.drop_first().len() == 0);
    assert(tx_run(md, elast.drop_first()) == md);
    assert(tx_run(mc, elast) == md);
    assert(tx_trace(md, elast.drop_first()) == Seq::<TxActionModel>::empty());
    assert(tx_trace(mc, elast) =~= seq![TxActionModel::AskDelete]);

    lemma_run_append(m, e1, ecopy);
    lemma_run_append(m, e1 + ecopy, elast);
    assert(tx_run(m, e1 + ecopy) == mc);
    assert(tx_trace(m, evs) == (tx_trace(m, e1) + tx_trace(mb, ecopy)) + tx_trace(mc, elast));
}

/// The copy-and-cleanup transaction over a reorganize plan.
pub struct ReorganizeTransaction {
    pub dest: String,
    pub folders: Vec<ClassifiedFolder>,
    pub entries: Vec<String>,
    pub phase: TxPhase,
}

impl View for ReorganizeTransaction {
    type V = TxModel;

    open spec fn view(&self) -> TxModel {
        TxModel {
            dest: self.dest@,
            folders: folder_models(self.folders@),
            entries: views_of(self.entries@),
            phase: self.phase,
        }
    }
}

impl ReorganizeTransaction {
    /// Open the transaction on a plan. Nothing has been asked and
    /// nothing touched yet: the first action is the proceed question.
    pub fn new(plan: ReorganizePlan) -> (t: ReorganizeTransaction)
        requires
            forall|i: int|
                0 <= i < plan.folders@.len() ==> (#[trigger] plan.folders@[i]@).role.is_concrete(),
        ensures
            t@.dest == plan.dest_root@,
            t@.folders == folder_models(plan.folders@),
            t@.entries == Seq::<Seq<char>>::empty(),
            t@.phase == TxPhase::ConfirmStart,
            tx_wf(t@),
    {
        let t = ReorganizeTransaction {
            dest: plan.dest_root,
            folders: plan.folders,
            entries: Vec::new(),
            phase: TxPhase::ConfirmStart,
        };
        proof {
            assert(views_of(t.entries@) =~= Seq::<Seq<char>>::empty());
            assert forall|i: int| 0 <= i < t@.folders.len() implies (#[trigger] t@.folders[i]).role.is_concrete() by {
                assert(t@.folders[i] == t.folders@[i]@);
            }
        }
        t
    }

    /// The single action the caller must perform next.
    pub fn next_action(&self) -> (a: TxAction)
        ensures
            a@ == tx_action(self@),
    {
        match self.phase {
            TxPhase::ConfirmStart => TxAction::AskProceed,
            TxPhase::CreateDest => TxAction::MakeDest { path: self.dest.clone() },
            TxPhase::ConfirmExisting => TxAction::AskUseExisting { path: self.dest.clone() },
            TxPhase::EnsureRoleDir { folder } => if folder < self.folders.len() {
                let name = self.folders[folder].role.name();
                TxAction::EnsureRoleDir { path: join_path(self.dest.as_str(), name.as_str()) }
            } else {
                TxAction::Finish
            },
            TxPhase::ListSource { folder } => if folder < self.folders.len() {
                TxAction::ListSource { path: self.folders[folder].path.clone() }
            } else {
                TxAction::Finish
            },
            TxPhase::CopyFile { folder, next } => if folder < self.folders.len() && next
                < self.entries.len() {
                let name = self.folders[folder].role.name();
                let role_dir = join_path(self.dest.as_str(), name.as_str());
                TxAction::CopyEntry {
                    from: join_path(self.folders[folder].path.as_str(), self.entries[next].as_str()),
                    to: join_path(role_dir.as_str(), self.entries[next].as_str()),
                }
            } else {
                TxAction::Finish
            },
            TxPhase::ConfirmDelete => TxAction::AskDelete,
            TxPhase::RemoveSource { folder } => if folder < self.folders.len() {
                TxAction::RemoveSource { path: self.folders[folder].path.clone() }
            } else {
                TxAction::Finish
            },
            TxPhase::Done => TxAction::Finish,
            TxPhase::Failed { error } => TxAction::Fail { error },
        }
    }

    /// Feed the report of the performed action into the transaction.
    /// The new state is exactly one `tx_step` further.
    pub fn step(&mut self, e: TxEvent)
        requires
            tx_wf(old(self)@),
        ensures
            final(self)@ == tx_step(old(self)@, e@),
            tx_wf(final(self)@),
    {
        proof {
            lemma_step_preserves_wf(self@, e@);
        }
        match self.phase {
            TxPhase::ConfirmStart => {
                if let TxEvent::Answered(yes) = e {
                    self.phase = if yes {
                        TxPhase::CreateDest
                    } else {
                        TxPhase::Failed { error: EngineError::Cancelled }
                    };
                }
            },
            TxPhase::CreateDest => {
                if let TxEvent::DestCreated(outcome) = e {
                    self.phase = match outcome {
                        CreateDirOutcome::Created => if self.folders.len() > 0 {
                            TxPhase::EnsureRoleDir { folder: 0 }
                        } else {
                            TxPhase::ConfirmDelete
                        },
                        CreateDirOutcome::AlreadyExists => TxPhase::ConfirmExisting,
                        CreateDirOutcome::Failed => TxPhase::Failed { error: EngineError::Io },
                    };
                }
            },
            TxPhase::ConfirmExisting => {
                if let TxEvent::Answered(yes) = e {
                    self.phase = if !yes {
                        TxPhase::Failed { error: EngineError::Cancelled }
                    } else if self.folders.len() > 0 {
                        TxPhase::EnsureRoleDir { folder: 0 }
                    } else {
                        TxPhase::ConfirmDelete
                    };
                }
            },
            TxPhase::EnsureRoleDir { folder } => {
                if let TxEvent::RoleDirReady(ok) = e {
                    self.phase = if ok {
                        TxPhase::ListSource { folder }
                    } else {
                        TxPhase::Failed { error: EngineError::Io }
                    };
                }
            },
            TxPhase::ListSource { folder } => {
                if let TxEvent::Listed(r) = e {
                    match r {
                        Some(es) => {
                            let nf = self.folders.len();
                            let has_entries = es.len() > 0;
                            self.entries = es;
                            self.phase = if has_entries {
                                TxPhase::CopyFile { folder, next: 0 }
                            } else if folder + 1 < nf {
                                TxPhase::EnsureRoleDir { folder: folder + 1 }
                            } else {
                                TxPhase::ConfirmDelete
                            };
                        },
                        None => {
                            self.phase = TxPhase::Failed { error: EngineError::Io };
                        },
                    }
                }
            },
            TxPhase::CopyFile { folder, next } => {
                if let TxEvent::Copied(ok) = e {
                    let nf = self.folders.len();
                    let ne = self.entries.len();
                    self.phase = if !ok {
                        TxPhase::Failed { error: EngineError::Io }
                    } else if next + 1 < ne {
                        TxPhase::CopyFile { folder, next: next + 1 }
                    } else if folder + 1 < nf {
                        TxPhase::EnsureRoleDir { folder: folder + 1 }
                    } else {
                        TxPhase::ConfirmDelete
                    };
                }
            },
            TxPhase::ConfirmDelete => {
                if let TxEvent::Answered(yes) = e {
                    self.phase = if !yes {
                        TxPhase::Done
                    } else if self.folders.len() > 0 {
                        TxPhase::RemoveSource { folder: 0 }
                    } else {
                        TxPhase::Done
                    };
                }
            },
            TxPhase::RemoveSource { folder } => {
                if let TxEvent::Removed(ok) = e {
                    let nf = self.folders.len();
                    self.phase = if !ok {
                        TxPhase::Failed { error: EngineError::Io }
                    } else if folder + 1 < nf {
                        TxPhase::RemoveSource { folder: folder + 1 }
                    } else {
                        TxPhase::Done
                    };
                }
            },
            TxPhase::Done => {},
            TxPhase::Failed { .. } => {},
        }
    }

    /// Whether the transaction has reached a terminal phase, and with
    /// which result: `None` while work is pending, `Some(Ok)` after
    /// success, `Some(Err)` after an abort.
    pub fn outcome(&self) -> (r: Option<Result<(), EngineError>>)
        ensures
            r == (match self@.phase {
                TxPhase::Done => Some(Result::<(), EngineError>::Ok(())),
                TxPhase::Failed { error } => Some(Result::<(), EngineError>::Err(error)),
                _ => None,
            }),
    {
        match self.phase {
            TxPhase::Done => Some(Ok(())),
            TxPhase::Failed { error } => Some(Err(error)),
            _ => None,
        }
    }
}

} // verus!
