//! Role inference: a folder's calibration role is read off the names of
//! the files directly inside it, by a first-match-wins prefix heuristic.
//!
//! The heuristic walks the folder's entries in the order the caller hands
//! them (directory-iteration order); the first entry whose name starts
//! with one of the known prefixes decides the role. Which entry comes
//! first is filesystem-dependent when several entries would match, and
//! that ambiguity is deliberate: the result is pinned only for a fixed
//! entry order.

use vstd::prelude::*;
use vstd::string::*;
use crate::role::RoleLabel;

verus! {

/// A folder selected for classification: its path and the names of its
/// immediate entries, in directory-iteration order.
pub struct FolderListing {
    pub path: String,
    pub entries: Vec<String>,
}

/// A folder together with its (inferred or corrected) calibration role.
pub struct ClassifiedFolder {
    pub path: String,
    pub role: RoleLabel,
}

impl ClassifiedFolder {
    /// The review line for this folder: its path and its current role,
    /// separated by a dash. Styling is the caller's concern.
    pub fn get_format(&self) -> (r: String)
        ensures
            r@ == self.path@ + " - "@ + self.role.spec_name(),
    {
        let mut s = self.path.clone();
        s.append(" - ");
        let name = self.role.name();
        s.append(name.as_str());
        s
    }
}

/// `p` is a prefix of `s`.
pub open spec fn is_prefix_of(p: Seq<char>, s: Seq<char>) -> bool {
    p.len() <= s.len() && forall|j: int| 0 <= j < p.len() ==> s[j] == p[j]
}

/// The role a single entry name votes for: the first of the prefixes
/// Light, Flat, Dark, Bias that the name starts with, else `Unknown`.
pub open spec fn entry_role(name: Seq<char>) -> RoleLabel {
    if is_prefix_of("Light"@, name) {
        RoleLabel::Light
    } else if is_prefix_of("Flat"@, name) {
        RoleLabel::Flat
    } else if is_prefix_of("Dark"@, name) {
        RoleLabel::Dark
    } else if is_prefix_of("Bias"@, name) {
        RoleLabel::Bias
    } else {
        RoleLabel::Unknown
    }
}

/// Role of a whole listing: the vote of the first entry that matches any
/// prefix; `Unknown` if no entry matches or the listing is empty.
pub open spec fn classify_listing(names: Seq<Seq<char>>) -> RoleLabel
    decreases names.len(),
{
    if names.len() == 0 {
        RoleLabel::Unknown
    } else if entry_role(names[0]) != RoleLabel::Unknown {
        entry_role(names[0])
    } else {
        classify_listing(names.drop_first())
    }
}

/// The views of a vector of entry names.
pub open spec fn views_of(entries: Seq<String>) -> Seq<Seq<char>> {
    entries.map_values(|s: String| s@)
}

/// Whether `s` starts with `p`, character for character.
pub fn has_prefix(s: &str, p: &str) -> (b: bool)
    ensures
        b == is_prefix_of(p@, s@),
{
    let n = p.unicode_len();
    if n > s.unicode_len() {
        return false;
    }
    let mut i: usize = 0;
    while i < n
        invariant
            n == p@.len(),
            n <= s@.len(),
            i <= n,
            forall|j: int| 0 <= j < i ==> s@[j] == p@[j],
        decreases n - i,
    {
        if s.get_char(i) != p.get_char(i) {
            return false;
        }
        i += 1;
    }
    true
}

/// The role a single entry name votes for.
pub fn classify_entry(name: &str) -> (r: RoleLabel)
    ensures
        r == entry_role(name@),
{
    if has_prefix(name, "Light") {
        RoleLabel::Light
    } else if has_prefix(name, "Flat") {
        RoleLabel::Flat
    } else if has_prefix(name, "Dark") {
        RoleLabel::Dark
    } else if has_prefix(name, "Bias") {
        RoleLabel::Bias
    } else {
        RoleLabel::Unknown
    }
}

/// Classifying a listing skips any leading run of non-matching entries.
proof fn lemma_classify_step(names: Seq<Seq<char>>, i: int)
    requires
        0 <= i < names.len(),
        entry_role(names[i]) == RoleLabel::Unknown,
    ensures
        classify_listing(names.skip(i)) == classify_listing(names.skip(i + 1)),
{
    assert(names.skip(i).len() > 0);
    assert(names.skip(i)[0] == names[i]);
    assert(names.skip(i).drop_first() =~= names.skip(i + 1));
}

/// A matching entry at position `i` decides the whole listing.
proof fn lemma_classify_found(names: Seq<Seq<char>>, i: int)
    requires
        0 <= i < names.len(),
        entry_role(names[i]) != RoleLabel::Unknown,
    ensures
        classify_listing(names.skip(i)) == entry_role(names[i]),
{
    assert(names.skip(i)[0] == names[i]);
}

/// Classification is deterministic for a fixed entry order: if every
/// entry before position `i` matches no prefix and the entry at `i`
/// matches one, the listing classifies as that entry's role.
pub proof fn lemma_first_match_wins(names: Seq<Seq<char>>, i: int)
    requires
        0 <= i < names.len(),
        entry_role(names[i]) != RoleLabel::Unknown,
        forall|j: int| 0 <= j < i ==> entry_role(#[trigger] names[j]) == RoleLabel::Unknown,
    ensures
        classify_listing(names) == entry_role(names[i]),
    decreases i,
{
    if i == 0 {
        lemma_classify_found(names, 0);
        assert(names.skip(0) =~= names);
    } else {
        lemma_classify_step(names, 0);
        assert(names.skip(0) =~= names);
        assert(names.skip(1) =~= names.drop_first());
        lemma_first_match_wins(names.drop_first(), i - 1);
        assert(names.drop_first()[i - 1] == names[i]);
    }
}

/// A listing with no entries, or none matching any prefix, classifies
/// as `Unknown`.
pub proof fn lemma_no_match_is_unknown(names: Seq<Seq<char>>)
    requires
        forall|j: int| 0 <= j < names.len() ==> entry_role(#[trigger] names[j]) == RoleLabel::Unknown,
    ensures
        classify_listing(names) == RoleLabel::Unknown,
    decreases names.len(),
{
    if names.len() > 0 {
        lemma_no_match_is_unknown(names.drop_first());
    }
}

/// Role of a folder, inferred from its entry listing by first match in
/// entry order.
pub fn classify_folder(entries: &Vec<String>) -> (r: RoleLabel)
    ensures
        r == classify_listing(views_of(entries@)),
{
    let ghost views = views_of(entries@);
    proof {
        assert(views.skip(0) =~= views);
    }
    let mut i: usize = 0;
    while i < entries.len()
        invariant
            views == views_of(entries@),
            views.len() == entries@.len(),
            i <= entries@.len(),
            classify_listing(views) == classify_listing(views.skip(i as int)),
            forall|j: int| 0 <= j < i ==> entry_role(#[trigger] views[j]) == RoleLabel::Unknown,
        decreases entries@.len() - i,
    {
        let role = classify_entry(entries[i].as_str());
        if !matches!(role, RoleLabel::Unknown) {
            proof {
                lemma_classify_found(views, i as int);
            }
            return role;
        }
        proof {
            lemma_classify_step(views, i as int);
        }
        i += 1;
    }
    proof {
        assert(views.skip(i as int) =~= Seq::<Seq<char>>::empty());
    }
    RoleLabel::Unknown
}

/// Classify every selected folder, preserving input order: one
/// `ClassifiedFolder` per input folder, with the path kept as it was.
pub fn classify_folders(folders: Vec<FolderListing>) -> (r: Vec<ClassifiedFolder>)
    ensures
        r@.len() == folders@.len(),
        forall|i: int| 0 <= i < folders@.len() ==> {
            &&& (#[trigger] r@[i]).path@ == folders@[i].path@
            &&& r@[i].role == classify_listing(views_of(folders@[i].entries@))
        },
{
    let mut out: Vec<ClassifiedFolder> = Vec::new();
    let mut i: usize = 0;
    while i < folders.len()
        invariant
            i <= folders@.len(),
            out@.len() == i,
            forall|j: int| 0 <= j < i ==> {
                &&& (#[trigger] out@[j]).path@ == folders@[j].path@
                &&& out@[j].role == classify_listing(views_of(folders@[j].entries@))
            },
        decreases folders@.len() - i,
    {
        let role = classify_folder(&folders[i].entries);
        let path = folders[i].path.clone();
        out.push(ClassifiedFolder { path, role });
        i += 1;
    }
    out
}

} // verus!
