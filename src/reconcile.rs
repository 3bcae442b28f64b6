//! Checking one launch command against the desired option string, and
//! rewriting it when the option string is missing.

use vstd::prelude::*;
use vstd::pervasive::VecAdditionalExecFns;
use vstd::string::*;
use crate::text::{contains_text, has_substring, opt_text};

verus! {

/// The leftmost text that the pattern `"(.+?)"` matches in `s`, both
/// quotes included, or the empty text where it matches nowhere.
pub uninterp spec fn quoted_token(s: Seq<char>) -> Seq<char>;

/// `s` holds a quoted token: two double quotes with at least one character
/// between them and no line break there.
pub open spec fn has_quoted_token(s: Seq<char>) -> bool {
    exists|i: int, j: int|
        0 <= i && i + 1 < j < s.len() && #[trigger] s[i] == '"' && #[trigger] s[j] == '"' && (
        forall|k: int| i < k < j ==> s[k] != '\n')
}

/// Relies on `regex::Regex::find` with the pattern `"(.+?)"`: the leftmost
/// match, as text. The pattern matches exactly where a quote is followed,
/// after one or more characters other than a line break, by another quote;
/// a match is never empty, and where there is none the text is empty.
#[verifier::external_body]
pub(crate) fn extract_executable(s: &str) -> (r: String)
    ensures
        r@ == quoted_token(s@),
        r@.len() == 0 <==> !has_quoted_token(s@),
{
    let re = regex::Regex::new("\"(.+?)\"").unwrap();
    match re.find(s) {
        Some(m) => m.as_str().to_string(),
        None => String::new(),
    }
}

#[derive(Clone, Copy, Debug, PartialEq, Eq, Structural)]
pub enum RepairOutcome {
    /// The command already held the desired option string; nothing written.
    AlreadySatisfied,
    /// The command was rewritten.
    Repaired,
    /// The launch entry could not be opened.
    Unreachable,
}

/// The command that replaces one missing the option string: the executable
/// part, one space, then the option string.
pub open spec fn joined_command(executable: Seq<char>, desired: Seq<char>) -> Seq<char> {
    executable + seq![' '] + desired
}

pub open spec fn repaired_command(launch: Seq<char>, desired: Seq<char>) -> Seq<char> {
    joined_command(quoted_token(launch), desired)
}

/// What reconciling an entry (`None`: it cannot be opened) reports.
pub open spec fn reconcile_outcome(entry: Option<Seq<char>>, desired: Seq<char>) -> RepairOutcome {
    match entry {
        None => RepairOutcome::Unreachable,
        Some(s) => if has_substring(s, desired) {
            RepairOutcome::AlreadySatisfied
        } else {
            RepairOutcome::Repaired
        },
    }
}

/// What the entry holds after reconciling it.
pub open spec fn reconciled_entry(entry: Option<Seq<char>>, desired: Seq<char>) -> Option<
    Seq<char>,
> {
    match entry {
        Some(s) => if has_substring(s, desired) {
            entry
        } else {
            Some(repaired_command(s, desired))
        },
        None => None,
    }
}

/// Builds the replacement command from an executable part already taken out
/// of the old command.
pub fn join_command(executable: &str, desired: &str) -> (r: String)
    ensures
        r@ == joined_command(executable@, desired@),
{
    let mut cmd = String::from_str(executable);
    cmd.append(" ");
    cmd.append(desired);
    proof {
        reveal_strlit(" ");
    }
    assert(cmd@ =~= joined_command(executable@, desired@));
    cmd
}

/// The command to write in place of `launch`, or `None` where `launch`
/// already holds `desired` (a plain substring test).
pub fn repair_command(launch: &str, desired: &str) -> (r: Option<String>)
    ensures
        r is None <==> has_substring(launch@, desired@),
        r is Some ==> r->0@ == repaired_command(launch@, desired@),
        r is Some && !has_quoted_token(launch@) ==> r->0@ == seq![' '] + desired@,
{
    if contains_text(launch, desired) {
        None
    } else {
        let executable = extract_executable(launch);
        let cmd = join_command(executable.as_str(), desired);
        assert(!has_quoted_token(launch@) ==> executable@ =~= Seq::<char>::empty());
        assert(!has_quoted_token(launch@) ==> cmd@ =~= seq![' '] + desired@);
        Some(cmd)
    }
}

/// Reconciles one launch entry (`None` where it cannot be opened) against
/// the desired option string, rewriting it in place where needed.
pub fn reconcile(entry: &mut Option<String>, desired: &str) -> (r: RepairOutcome)
    ensures
        r == reconcile_outcome(opt_text(*old(entry)), desired@),
        opt_text(*final(entry)) == reconciled_entry(opt_text(*old(entry)), desired@),
        r != RepairOutcome::Repaired ==> *final(entry) == *old(entry),
        r == RepairOutcome::Repaired && !has_quoted_token(old(entry)->0@) ==> final(entry)->0@ == seq![
            ' ',
        ] + desired@,
{
    let plan = match &*entry {
        Some(s) => Some(repair_command(s.as_str(), desired)),
        None => None,
    };
    match plan {
        None => RepairOutcome::Unreachable,
        Some(None) => RepairOutcome::AlreadySatisfied,
        Some(Some(cmd)) => {
            *entry = Some(cmd);
            RepairOutcome::Repaired
        },
    }
}

/// A rewritten command holds the option string it was rewritten for, so a
/// second reconciliation with the same option string finds nothing to do:
/// it reports `AlreadySatisfied` and leaves the entry as the first left it.
pub proof fn lemma_reconcile_idempotent(entry: Option<Seq<char>>, desired: Seq<char>)
    ensures
        ({
            let once = reconciled_entry(entry, desired);
            &&& reconcile_outcome(once, desired) != RepairOutcome::Repaired
            &&& reconciled_entry(once, desired) == once
            &&& reconcile_outcome(entry, desired) == RepairOutcome::Repaired
                ==> reconcile_outcome(once, desired) == RepairOutcome::AlreadySatisfied
        }),
{
    if let Some(s) = entry {
        if !has_substring(s, desired) {
            let q = quoted_token(s);
            let cmd = repaired_command(s, desired);
            let at: int = q.len() as int + 1;
            assert(cmd.subrange(at, at + desired.len()) =~= desired);
            assert(crate::text::occurs_at(cmd, desired, at));
        }
    }
}

/// One reconciliation tick: every entry in order, each as `reconcile` does;
/// an entry that cannot be opened is reported and the others still go on.
pub fn reconcile_tick(entries: &mut Vec<Option<String>>, desired: &str) -> (r: Vec<RepairOutcome>)
    ensures
        r@.len() == old(entries)@.len(),
        final(entries)@.len() == old(entries)@.len(),
        forall|i: int|
            0 <= i < r@.len() ==> r@[i] == reconcile_outcome(opt_text(old(entries)@[i]), desired@),
        forall|i: int|
            0 <= i < r@.len() ==> opt_text(#[trigger] final(entries)@[i]) == reconciled_entry(
                opt_text(old(entries)@[i]),
                desired@,
            ),
{
    let ghost before = entries@;
    let mut outcomes: Vec<RepairOutcome> = Vec::new();
    let mut i: usize = 0;
    while i < entries.len()
        invariant
            entries@.len() == before.len(),
            i <= before.len(),
            outcomes@.len() == i,
            forall|k: int| i <= k < before.len() ==> entries@[k] == before[k],
            forall|k: int|
                0 <= k < i ==> outcomes@[k] == reconcile_outcome(opt_text(before[k]), desired@),
            forall|k: int|
                0 <= k < i ==> opt_text(#[trigger] entries@[k]) == reconciled_entry(
                    opt_text(before[k]),
                    desired@,
                ),
        decreases before.len() - i,
    {
        let mut entry: Option<String> = None;
        entries.set_and_swap(i, &mut entry);
        let outcome = reconcile(&mut entry, desired);
        entries.set_and_swap(i, &mut entry);
        outcomes.push(outcome);
        i = i + 1;
    }
    outcomes
}

} // verus!
