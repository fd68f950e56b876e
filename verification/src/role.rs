//! The calibration role assigned to a capture folder, and the fixed menu
//! of concrete roles the operator can pick from when correcting one.

use vstd::prelude::*;

verus! {

/// Calibration role of a capture folder. `Unknown` marks a folder whose
/// contents matched no known frame-name prefix; such folders are never
/// copied and never deleted.
#[derive(Clone, Copy, Debug, PartialEq, Eq, Structural)]
pub enum RoleLabel {
    Light,
    Dark,
    Flat,
    Bias,
    Unknown,
}

impl RoleLabel {
    /// A concrete role takes part in the reorganization; `Unknown` does not.
    pub open spec fn is_concrete(self) -> bool {
        self != RoleLabel::Unknown
    }

    /// The display / subdirectory name of the role.
    pub open spec fn spec_name(self) -> Seq<char> {
        match self {
            RoleLabel::Light => "Light"@,
            RoleLabel::Dark => "Dark"@,
            RoleLabel::Flat => "Flat"@,
            RoleLabel::Bias => "Bias"@,
            RoleLabel::Unknown => "Unknown"@,
        }
    }

    /// Name of the role, used both for display and as the destination
    /// subdirectory name of a concrete role.
    pub fn name(self) -> (r: String)
        ensures
            r@ == self.spec_name(),
    {
        match self {
            RoleLabel::Light => "Light".to_owned(),
            RoleLabel::Dark => "Dark".to_owned(),
            RoleLabel::Flat => "Flat".to_owned(),
            RoleLabel::Bias => "Bias".to_owned(),
            RoleLabel::Unknown => "Unknown".to_owned(),
        }
    }

    /// Position of a concrete role in the correction menu
    /// (Light, Dark, Flat, Bias); `Unknown` has no menu position, so a
    /// folder still classified `Unknown` gets no default cursor.
    pub fn menu_index(self) -> (r: Option<usize>)
        ensures
            r == spec_menu_index(self),
    {
        match self {
            RoleLabel::Light => Some(0),
            RoleLabel::Dark => Some(1),
            RoleLabel::Flat => Some(2),
            RoleLabel::Bias => Some(3),
            RoleLabel::Unknown => None,
        }
    }

    /// The role selected by a correction-menu choice: the four menu rows
    /// name the concrete roles, and any out-of-menu choice resets the
    /// folder to `Unknown`.
    pub fn from_menu_choice(choice: usize) -> (r: RoleLabel)
        ensures
            r == spec_role_of_choice(choice as int),
    {
        if choice == 0 {
            RoleLabel::Light
        } else if choice == 1 {
            RoleLabel::Dark
        } else if choice == 2 {
            RoleLabel::Flat
        } else if choice == 3 {
            RoleLabel::Bias
        } else {
            RoleLabel::Unknown
        }
    }
}

/// Menu position of each role, mirrored by `RoleLabel::menu_index`.
pub open spec fn spec_menu_index(r: RoleLabel) -> Option<usize> {
    match r {
        RoleLabel::Light => Some(0usize),
        RoleLabel::Dark => Some(1usize),
        RoleLabel::Flat => Some(2usize),
        RoleLabel::Bias => Some(3usize),
        RoleLabel::Unknown => None,
    }
}

/// Role picked by a correction-menu choice, mirrored by
/// `RoleLabel::from_menu_choice`.
pub open spec fn spec_role_of_choice(choice: int) -> RoleLabel {
    if choice == 0 {
        RoleLabel::Light
    } else if choice == 1 {
        RoleLabel::Dark
    } else if choice == 2 {
        RoleLabel::Flat
    } else if choice == 3 {
        RoleLabel::Bias
    } else {
        RoleLabel::Unknown
    }
}

/// Menu choice and menu position agree: picking the row that shows a
/// concrete role yields that role back.
pub proof fn lemma_menu_round_trip(r: RoleLabel)
    requires
        r.is_concrete(),
    ensures
        spec_menu_index(r) is Some,
        spec_role_of_choice(spec_menu_index(r)->Some_0 as int) == r,
{
}

} // verus!
