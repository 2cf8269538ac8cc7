use vstd::prelude::*;

verus! {

/// The status a diff gives one of its entries (the variants of `git2::Delta`).
#[derive(Clone, Copy, Debug, PartialEq, Eq, Structural)]
pub enum DeltaStatus {
    Unmodified,
    Added,
    Deleted,
    Modified,
    Renamed,
    Copied,
    Ignored,
    Untracked,
    Typechange,
    Unreadable,
    Conflicted,
}

/// The kind of change a diff entry records, as far as this explorer tracks it.
#[derive(Clone, Copy, Debug, PartialEq, Eq, Structural, PartialOrd, Ord)]
pub enum ChangeType {
    Added,
    Modified,
    Deleted,
    Renamed,
    Unmapped,
}

/// How a diff status maps to a change type: copies count as additions, and
/// the statuses this explorer does not follow are `Unmapped`.
pub open spec fn change_type_of(status: DeltaStatus) -> ChangeType {
    match status {
        DeltaStatus::Added | DeltaStatus::Copied => ChangeType::Added,
        DeltaStatus::Modified => ChangeType::Modified,
        DeltaStatus::Deleted => ChangeType::Deleted,
        DeltaStatus::Renamed => ChangeType::Renamed,
        DeltaStatus::Unmodified
        | DeltaStatus::Ignored
        | DeltaStatus::Untracked
        | DeltaStatus::Typechange
        | DeltaStatus::Unreadable
        | DeltaStatus::Conflicted => ChangeType::Unmapped,
    }
}

impl From<DeltaStatus> for ChangeType {
    fn from(value: DeltaStatus) -> (r: ChangeType) {
        match value {
            DeltaStatus::Added | DeltaStatus::Copied => ChangeType::Added,
            DeltaStatus::Modified => ChangeType::Modified,
            DeltaStatus::Deleted => ChangeType::Deleted,
            DeltaStatus::Renamed => ChangeType::Renamed,
            DeltaStatus::Unmodified
            | DeltaStatus::Ignored
            | DeltaStatus::Untracked
            | DeltaStatus::Typechange
            | DeltaStatus::Unreadable
            | DeltaStatus::Conflicted => ChangeType::Unmapped,
        }
    }
}

impl vstd::std_specs::convert::FromSpecImpl<DeltaStatus> for ChangeType {
    open spec fn obeys_from_spec() -> bool {
        true
    }

    open spec fn from_spec(v: DeltaStatus) -> ChangeType {
        change_type_of(v)
    }
}

/// The name under which a change type is shown.
pub open spec fn change_type_text(t: ChangeType) -> Seq<char> {
    match t {
        ChangeType::Added => "Added"@,
        ChangeType::Modified => "Modified"@,
        ChangeType::Deleted => "Deleted"@,
        ChangeType::Renamed => "Renamed"@,
        ChangeType::Unmapped => "Unmapped"@,
    }
}

/// Additions and copies are `Added`; modifications, deletions and renames
/// keep their kind; every other status is `Unmapped`.
pub proof fn law_change_type_mapping(status: DeltaStatus)
    ensures
        change_type_of(status) == ChangeType::Added <==> (status == DeltaStatus::Added || status == DeltaStatus::Copied),
        change_type_of(status) == ChangeType::Modified <==> status == DeltaStatus::Modified,
        change_type_of(status) == ChangeType::Deleted <==> status == DeltaStatus::Deleted,
        change_type_of(status) == ChangeType::Renamed <==> status == DeltaStatus::Renamed,
        change_type_of(status) == ChangeType::Unmapped <==> !(status == DeltaStatus::Added
            || status == DeltaStatus::Copied || status == DeltaStatus::Modified
            || status == DeltaStatus::Deleted || status == DeltaStatus::Renamed),
{
}

/// Each change type is shown under its own name, so different types are
/// shown differently.
pub proof fn law_change_type_names(t: ChangeType, u: ChangeType)
    ensures
        t == ChangeType::Added ==> change_type_text(t) == "Added"@,
        t == ChangeType::Modified ==> change_type_text(t) == "Modified"@,
        t == ChangeType::Deleted ==> change_type_text(t) == "Deleted"@,
        t == ChangeType::Renamed ==> change_type_text(t) == "Renamed"@,
        t == ChangeType::Unmapped ==> change_type_text(t) == "Unmapped"@,
        t != u ==> change_type_text(t) != change_type_text(u),
{
    reveal_strlit("Added");
    reveal_strlit("Modified");
    reveal_strlit("Deleted");
    reveal_strlit("Renamed");
    reveal_strlit("Unmapped");
    if t != u {
        let a = change_type_text(t);
        let b = change_type_text(u);
        if a.len() == b.len() {
            assert(a[0] != b[0] || a[1] != b[1] || a[2] != b[2]);
        }
    }
}

impl ChangeType {
    /// The name under which this change type is shown.
    pub fn to_display_string(&self) -> (r: String)
        ensures
            r@ == change_type_text(*self),
    {
        match self {
            ChangeType::Added => String::from_str("Added"),
            ChangeType::Modified => String::from_str("Modified"),
            ChangeType::Deleted => String::from_str("Deleted"),
            ChangeType::Renamed => String::from_str("Renamed"),
            ChangeType::Unmapped => String::from_str("Unmapped"),
        }
    }
}

} // verus!
