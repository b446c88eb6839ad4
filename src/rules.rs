use vstd::prelude::*;

use crate::error::MissionError;
use crate::mission::MissionEntity;
use crate::mission_statuses::{status_text, MissionStatuses};
use crate::text::{text_eq, trim_of, trim_text};

verus! {

/// Fewest characters a trimmed mission name may have.
pub const MIN_NAME_CHARS: usize = 3;

/// A mission name is acceptable when, trimmed, it has at least three characters.
pub open spec fn name_is_valid(name: Seq<char>) -> bool {
    trim_of(name).len() >= MIN_NAME_CHARS
}

/// Checks a name that has already been trimmed: at least three characters.
pub fn check_trimmed_name(trimmed: &str) -> (r: Result<(), MissionError>)
    ensures
        r is Ok <==> trimmed@.len() >= MIN_NAME_CHARS,
        r is Err ==> r == Err::<(), MissionError>(MissionError::ValidationError),
{
    if trimmed.unicode_len() < MIN_NAME_CHARS {
        Err(MissionError::ValidationError)
    } else {
        Ok(())
    }
}

/// Checks the name given at mission creation.
pub fn check_new_name(name: &str) -> (r: Result<(), MissionError>)
    ensures
        r is Ok <==> name_is_valid(name@),
        r is Err ==> r == Err::<(), MissionError>(MissionError::ValidationError),
{
    let trimmed = trim_text(name);
    check_trimmed_name(trimmed.as_str())
}

/// What an edit does with a trimmed proposed name: empty means no change,
/// too short is an error, otherwise the name is stored.
pub open spec fn trimmed_edit_outcome(trimmed: Seq<char>) -> Result<Option<Seq<char>>, MissionError> {
    if trimmed.len() == 0 {
        Ok(None)
    } else if trimmed.len() < MIN_NAME_CHARS {
        Err(MissionError::ValidationError)
    } else {
        Ok(Some(trimmed))
    }
}

/// Decides what an edit does with a proposed name that has already been trimmed.
pub fn normalize_trimmed_name(trimmed: String) -> (r: Result<Option<String>, MissionError>)
    ensures
        match (r, trimmed_edit_outcome(trimmed@)) {
            (Ok(Some(a)), Ok(Some(b))) => a@ == b,
            (Ok(None), Ok(None)) => true,
            (Err(a), Err(b)) => a == b,
            _ => false,
        },
{
    let len = trimmed.as_str().unicode_len();
    if len == 0 {
        Ok(None)
    } else if len < MIN_NAME_CHARS {
        Err(MissionError::ValidationError)
    } else {
        Ok(Some(trimmed))
    }
}

/// What an edit does with a proposed name: absent or blank means no change,
/// too short is an error, otherwise the trimmed name is stored.
pub open spec fn edit_name_outcome(name: Option<String>) -> Result<Option<Seq<char>>, MissionError> {
    match name {
        None => Ok(None),
        Some(n) => trimmed_edit_outcome(trim_of(n@)),
    }
}

/// Normalises the name proposed by an edit.
pub fn normalize_edit_name(name: Option<String>) -> (r: Result<Option<String>, MissionError>)
    ensures
        match (r, edit_name_outcome(name)) {
            (Ok(Some(a)), Ok(Some(b))) => a@ == b,
            (Ok(None), Ok(None)) => true,
            (Err(a), Err(b)) => a == b,
            _ => false,
        },
{
    match name {
        None => Ok(None),
        Some(n) => normalize_trimmed_name(trim_text(n.as_str())),
    }
}

/// Edits and removals are refused while the mission has crew.
pub fn ensure_no_crew(crew_count: i64) -> (r: Result<(), MissionError>)
    ensures
        r is Ok <==> crew_count <= 0,
        r is Err ==> r == Err::<(), MissionError>(MissionError::Conflict),
{
    if crew_count > 0 {
        Err(MissionError::Conflict)
    } else {
        Ok(())
    }
}

/// Guard of `to_progress`: from `Open` or `Failed`, with some crew but fewer
/// than the capacity ceiling, asked by the mission's chief.
pub open spec fn progress_allowed(m: MissionEntity, crew_count: i64, max_crew: i64, chief_id: i32) -> bool {
    &&& (m.status@ == status_text(MissionStatuses::Open) || m.status@ == status_text(MissionStatuses::Failed))
    &&& 0 < crew_count
    &&& crew_count < max_crew
    &&& m.chief_id == chief_id
}

/// Guard of `to_completed` and `to_failed`: from `InProgress`, asked by the chief.
pub open spec fn finish_allowed(m: MissionEntity, chief_id: i32) -> bool {
    &&& m.status@ == status_text(MissionStatuses::InProgress)
    &&& m.chief_id == chief_id
}

/// Evaluates the guard of `to_progress`.
pub fn can_progress(m: &MissionEntity, crew_count: i64, max_crew: i64, chief_id: i32) -> (r: bool)
    ensures
        r == progress_allowed(*m, crew_count, max_crew, chief_id),
{
    let open_or_failed = text_eq(m.status.as_str(), MissionStatuses::Open.as_str())
        || text_eq(m.status.as_str(), MissionStatuses::Failed.as_str());
    open_or_failed && crew_count > 0 && crew_count < max_crew && m.chief_id == chief_id
}

/// Evaluates the guard of `to_completed` and `to_failed`.
pub fn can_finish(m: &MissionEntity, chief_id: i32) -> (r: bool)
    ensures
        r == finish_allowed(*m, chief_id),
{
    text_eq(m.status.as_str(), MissionStatuses::InProgress.as_str()) && m.chief_id == chief_id
}

/// The value of a decimal digit.
pub open spec fn digit_value(c: char) -> int {
    c as int - '0' as int
}

pub open spec fn is_digit(c: char) -> bool {
    '0' <= c && c <= '9'
}

/// The value of a string of decimal digits.
pub open spec fn decimal_value(s: Seq<char>) -> int
    decreases s.len(),
{
    if s.len() == 0 {
        0
    } else {
        decimal_value(s.drop_last()) * 10 + digit_value(s.last())
    }
}

/// A capacity setting is a non-empty string of decimal digits whose value is
/// a positive `i64`.
pub open spec fn capacity_text_valid(s: Seq<char>) -> bool {
    &&& s.len() > 0
    &&& forall|i: int| 0 <= i < s.len() ==> is_digit(s[i])
    &&& 0 < decimal_value(s) <= i64::MAX
}

proof fn lemma_decimal_value_grows(s: Seq<char>, k: int)
    requires
        0 <= k <= s.len(),
        forall|i: int| 0 <= i < s.len() ==> is_digit(s[i]),
    ensures
        0 <= decimal_value(s.subrange(0, k)) <= decimal_value(s),
    decreases s.len(),
{
    if s.len() > 0 {
        let t = s.drop_last();
        if k == s.len() {
            assert(s.subrange(0, k) =~= s);
            lemma_decimal_value_grows(t, 0);
        } else {
            assert(s.subrange(0, k) =~= t.subrange(0, k));
            lemma_decimal_value_grows(t, k);
        }
    } else {
        assert(s.subrange(0, k) =~= s);
    }
}

/// Reads the capacity ceiling from its configured text.
pub fn parse_max_crew(text: &str) -> (r: Result<i64, MissionError>)
    ensures
        match r {
            Ok(v) => capacity_text_valid(text@) && v == decimal_value(text@),
            Err(e) => !capacity_text_valid(text@) && e == MissionError::Unavailable,
        },
{
    let n = text.unicode_len();
    if n == 0 {
        return Err(MissionError::Unavailable);
    }
    let mut value: i64 = 0;
    let mut i: usize = 0;
    while i < n
        invariant
            n == text@.len(),
            i <= n,
            forall|j: int| 0 <= j < i ==> is_digit(text@[j]),
            value == decimal_value(text@.subrange(0, i as int)),
            0 <= value,
        decreases n - i,
    {
        let c = text.get_char(i);
        if !('0' <= c && c <= '9') {
            return Err(MissionError::Unavailable);
        }
        let d = (c as u32 - '0' as u32) as i64;
        assert(text@.subrange(0, i + 1).drop_last() =~= text@.subrange(0, i as int));
        if value > (i64::MAX - d) / 10 {
            proof {
                if capacity_text_valid(text@) {
                    lemma_decimal_value_grows(text@, i + 1);
                    assert(decimal_value(text@.subrange(0, i + 1)) == value * 10 + d);
                    assert(value * 10 + d > i64::MAX) by (nonlinear_arith)
                        requires value > (i64::MAX - d) / 10, 0 <= d <= 9;
                }
            }
            return Err(MissionError::Unavailable);
        }
        value = value * 10 + d;
        i += 1;
    }
    assert(text@.subrange(0, n as int) =~= text@);
    if value == 0 {
        return Err(MissionError::Unavailable);
    }
    Ok(value)
}

} // verus!
