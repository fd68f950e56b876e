//! The correction session: the operator reviews the classified folders
//! and may reassign role labels before anything touches the disk.
//!
//! The session is a small state machine driven from outside. In
//! `Review` the caller shows the list and asks whether the types are
//! correct; in `Edit` it offers every folder plus an exit row; in
//! `ChooseRole` it offers the four concrete roles for one folder. The
//! session only ever rewrites role labels: the set, order and paths of
//! the folders are preserved, which is proved below for arbitrary event
//! sequences.

use vstd::prelude::*;
use crate::classify::ClassifiedFolder;
use crate::role::{RoleLabel, spec_menu_index, spec_role_of_choice};

verus! {

/// Where the session stands: which question the operator is being asked.
#[derive(Clone, Copy, Debug, PartialEq, Eq, Structural)]
pub enum SessionState {
    /// The full list is shown; the operator confirms or declines it.
    Review,
    /// The operator picks a folder to edit, or the exit row.
    Edit,
    /// The operator picks a new role for the folder at this position.
    ChooseRole { folder: usize },
    /// The session is over; the folder list is final.
    Done,
}

/// The operator's answer to the question the current state poses.
#[derive(Clone, Copy, Debug, PartialEq, Eq, Structural)]
pub enum SessionEvent {
    /// Answer to the `Review` confirmation.
    Confirmed(bool),
    /// Row picked in the `Edit` menu; the row after the last folder is
    /// the exit row, and any out-of-range pick counts as exiting.
    PickedFolder(usize),
    /// Row picked in the `ChooseRole` menu of concrete roles.
    PickedRole(usize),
}

/// Mathematical image of one classified folder: its path and role.
pub struct FolderModel {
    pub path: Seq<char>,
    pub role: RoleLabel,
}

/// Mathematical image of a whole session.
pub struct SessionModel {
    pub folders: Seq<FolderModel>,
    pub state: SessionState,
}

impl View for ClassifiedFolder {
    type V = FolderModel;

    open spec fn view(&self) -> FolderModel {
        FolderModel { path: self.path@, role: self.role }
    }
}

/// The views of a sequence of classified folders.
pub open spec fn folder_models(folders: Seq<ClassifiedFolder>) -> Seq<FolderModel> {
    folders.map_values(|f: ClassifiedFolder| f@)
}

/// One transition of the session: from a state and the operator's
/// answer to the next state. An answer that does not fit the pending
/// question changes nothing.
pub open spec fn session_step(m: SessionModel, e: SessionEvent) -> SessionModel {
    match (m.state, e) {
        (SessionState::Review, SessionEvent::Confirmed(yes)) => SessionModel {
            folders: m.folders,
            state: if yes {
                SessionState::Done
            } else {
                SessionState::Edit
            },
        },
        (SessionState::Edit, SessionEvent::PickedFolder(i)) => SessionModel {
            folders: m.folders,
            state: if i >= m.folders.len() {
                SessionState::Done
            } else {
                SessionState::ChooseRole { folder: i }
            },
        },
        (SessionState::ChooseRole { folder }, SessionEvent::PickedRole(c)) => SessionModel {
            folders: if folder < m.folders.len() {
                m.folders.update(
                    folder as int,
                    FolderModel {
                        path: m.folders[folder as int].path,
                        role: spec_role_of_choice(c as int),
                    },
                )
            } else {
                m.folders
            },
            state: SessionState::Edit,
        },
        _ => m,
    }
}

/// A whole run of the session: the state after a sequence of answers.
pub open spec fn session_run(m: SessionModel, evs: Seq<SessionEvent>) -> SessionModel
    decreases evs.len(),
{
    if evs.len() == 0 {
        m
    } else {
        session_run(session_step(m, evs[0]), evs.drop_first())
    }
}

/// The paths of the session's folders, in order.
pub open spec fn session_paths(m: SessionModel) -> Seq<Seq<char>> {
    m.folders.map_values(|f: FolderModel| f.path)
}

/// No single transition adds, removes or reorders folders, and none
/// rewrites a path: only role labels change.
pub proof fn lemma_step_preserves_folder_set(m: SessionModel, e: SessionEvent)
    ensures
        session_step(m, e).folders.len() == m.folders.len(),
        session_paths(session_step(m, e)) == session_paths(m),
{
    assert(session_paths(session_step(m, e)) =~= session_paths(m));
}

/// Whatever the operator answers, for however long: the session never
/// changes the cardinality or the path identity of the folder set.
pub proof fn lemma_run_preserves_folder_set(m: SessionModel, evs: Seq<SessionEvent>)
    ensures
        session_run(m, evs).folders.len() == m.folders.len(),
        session_paths(session_run(m, evs)) == session_paths(m),
    decreases evs.len(),
{
    if evs.len() > 0 {
        lemma_step_preserves_folder_set(m, evs[0]);
        lemma_run_preserves_folder_set(session_step(m, evs[0]), evs.drop_first());
    }
}

/// Confirming "types correct" with no edits ends the session with the
/// folder list exactly as it came in.
pub proof fn lemma_confirm_without_edits(m: SessionModel)
    requires
        m.state == SessionState::Review,
    ensures
        session_step(m, SessionEvent::Confirmed(true)).state == SessionState::Done,
        session_step(m, SessionEvent::Confirmed(true)).folders == m.folders,
{
}

/// The interactive correction session over a list of classified folders.
pub struct CorrectionSession {
    pub folders: Vec<ClassifiedFolder>,
    pub state: SessionState,
}

impl View for CorrectionSession {
    type V = SessionModel;

    open spec fn view(&self) -> SessionModel {
        SessionModel { folders: folder_models(self.folders@), state: self.state }
    }
}

impl CorrectionSession {
    /// Open a session on the classified folders, starting in `Review`.
    pub fn new(folders: Vec<ClassifiedFolder>) -> (s: CorrectionSession)
        ensures
            s@.folders == folder_models(folders@),
            s@.state == SessionState::Review,
    {
        CorrectionSession { folders, state: SessionState::Review }
    }

    /// Whether the session has reached its terminal state.
    pub fn is_done(&self) -> (b: bool)
        ensures
            b == (self@.state == SessionState::Done),
    {
        matches!(self.state, SessionState::Done)
    }

    /// Default cursor for the `ChooseRole` menu: the folder's current
    /// role when it is one of the four concrete ones, else none.
    pub fn role_menu_default(&self) -> (r: Option<usize>)
        ensures
            r == (match self@.state {
                SessionState::ChooseRole { folder } => {
                    if folder < self@.folders.len() {
                        spec_menu_index(self@.folders[folder as int].role)
                    } else {
                        None
                    }
                },
                _ => None,
            }),
    {
        match self.state {
            SessionState::ChooseRole { folder } => {
                if folder < self.folders.len() {
                    self.folders[folder].role.menu_index()
                } else {
                    None
                }
            },
            _ => None,
        }
    }

    /// Feed the operator's answer to the pending question into the
    /// session. The new session is exactly one `session_step` further.
    pub fn step(&mut self, e: SessionEvent)
        ensures
            final(self)@ == session_step(old(self)@, e),
    {
        let ghost m = self@;
        match self.state {
            SessionState::Review => {
                if let SessionEvent::Confirmed(yes) = e {
                    self.state = if yes {
                        SessionState::Done
                    } else {
                        SessionState::Edit
                    };
                }
            },
            SessionState::Edit => {
                if let SessionEvent::PickedFolder(i) = e {
                    self.state = if i >= self.folders.len() {
                        SessionState::Done
                    } else {
                        SessionState::ChooseRole { folder: i }
                    };
                }
            },
            SessionState::ChooseRole { folder } => {
                if let SessionEvent::PickedRole(c) = e {
                    if folder < self.folders.len() {
                        let role = RoleLabel::from_menu_choice(c);
                        let path = self.folders[folder].path.clone();
                        let ghost before = folder_models(self.folders@);
                        self.folders[folder] = ClassifiedFolder { path, role };
                        proof {
                            assert(folder_models(self.folders@) =~= before.update(
                                folder as int,
                                FolderModel {
                                    path: m.folders[folder as int].path,
                                    role: spec_role_of_choice(c as int),
                                },
                            ));
                        }
                    }
                    self.state = SessionState::Edit;
                }
            },
            SessionState::Done => {},
        }
    }

    /// Close the session and hand the (possibly corrected) folders back.
    pub fn into_folders(self) -> (r: Vec<ClassifiedFolder>)
        ensures
            folder_models(r@) == self@.folders,
    {
        self.folders
    }
}

} // verus!
