use vstd::prelude::*;

use crate::text::text_eq;

verus! {

/// The four lifecycle states of a mission.
#[derive(Debug, Clone, Copy, PartialEq, Eq, Structural)]
pub enum MissionStatuses {
    Open,
    InProgress,
    Completed,
    Failed,
}

/// The text under which a status is persisted.
pub open spec fn status_text(s: MissionStatuses) -> Seq<char> {
    match s {
        MissionStatuses::Open => "Open"@,
        MissionStatuses::InProgress => "InProgress"@,
        MissionStatuses::Completed => "Completed"@,
        MissionStatuses::Failed => "Failed"@,
    }
}

/// The status persisted under a text, if any.
pub open spec fn status_of_text(t: Seq<char>) -> Option<MissionStatuses> {
    if t == "Open"@ {
        Some(MissionStatuses::Open)
    } else if t == "InProgress"@ {
        Some(MissionStatuses::InProgress)
    } else if t == "Completed"@ {
        Some(MissionStatuses::Completed)
    } else if t == "Failed"@ {
        Some(MissionStatuses::Failed)
    } else {
        None
    }
}

/// The four texts are pairwise distinct.
pub proof fn lemma_status_texts_distinct()
    ensures
        "Open"@ != "InProgress"@,
        "Open"@ != "Completed"@,
        "Open"@ != "Failed"@,
        "InProgress"@ != "Completed"@,
        "InProgress"@ != "Failed"@,
        "Completed"@ != "Failed"@,
{
    reveal_strlit("Open");
    reveal_strlit("InProgress");
    reveal_strlit("Completed");
    reveal_strlit("Failed");
    assert("Open"@.len() != "InProgress"@.len());
    assert("Open"@.len() != "Completed"@.len());
    assert("Open"@.len() != "Failed"@.len());
    assert("InProgress"@.len() != "Completed"@.len());
    assert("InProgress"@.len() != "Failed"@.len());
    assert("Completed"@.len() != "Failed"@.len());
}

/// Persisting a status and reading it back gives the same status, and a
/// text reads as a status only if it is that status's text.
pub proof fn lemma_status_text_round_trip(s: MissionStatuses, t: Seq<char>)
    ensures
        status_of_text(status_text(s)) == Some(s),
        status_of_text(t) == Some(s) ==> t == status_text(s),
{
    lemma_status_texts_distinct();
}

impl MissionStatuses {
    /// The persisted text of the status.
    pub fn as_str(&self) -> (r: &'static str)
        ensures
            r@ == status_text(*self),
    {
        match self {
            MissionStatuses::Open => "Open",
            MissionStatuses::InProgress => "InProgress",
            MissionStatuses::Completed => "Completed",
            MissionStatuses::Failed => "Failed",
        }
    }

    /// The status persisted under a text; unknown text is refused.
    pub fn from_text(t: &str) -> (r: Option<MissionStatuses>)
        ensures
            r == status_of_text(t@),
    {
        if text_eq(t, "Open") {
            Some(MissionStatuses::Open)
        } else if text_eq(t, "InProgress") {
            Some(MissionStatuses::InProgress)
        } else if text_eq(t, "Completed") {
            Some(MissionStatuses::Completed)
        } else if text_eq(t, "Failed") {
            Some(MissionStatuses::Failed)
        } else {
            None
        }
    }

    /// The persisted text of the status, owned.
    pub fn to_string(&self) -> (r: String)
        ensures
            r@ == status_text(*self),
    {
        String::from_str(self.as_str())
    }
}

impl Default for MissionStatuses {
    fn default() -> (r: Self)
        ensures
            r == MissionStatuses::Open,
    {
        MissionStatuses::Open
    }
}

} // verus!
