//! Finding the tracked store entries among the names of a store's entries.

use vstd::prelude::*;
use vstd::string::*;
use crate::text::{has_prefix, starts_with_text};

verus! {

/// The captures of `^Firefox(.+?)-(.+?)$` on `name`: the category, then the
/// install identifier; `None` where the pattern does not match.
pub uninterp spec fn key_name_parts(name: Seq<char>) -> Option<(Seq<char>, Seq<char>)>;

/// The prefix that every entry of interest starts with.
pub open spec fn family_prefix() -> Seq<char> {
    seq!['F', 'i', 'r', 'e', 'f', 'o', 'x']
}

/// Relies on `regex::Regex::captures` with `^Firefox(.+?)-(.+?)$`: both groups
/// take part in every match, and as the pattern is anchored at both ends, a
/// match writes the name as the prefix, the category, a dash and the
/// identifier, neither of the two empty.
#[verifier::external_body]
fn split_key_name(name: &str) -> (r: Option<(String, String)>)
    ensures
        match r {
            Some((c, id)) => key_name_parts(name@) == Some((c@, id@)),
            None => key_name_parts(name@) is None,
        },
        match r {
            Some((c, id)) => name@ == family_prefix() + c@ + seq!['-'] + id@ && c@.len() > 0
                && id@.len() > 0,
            None => true,
        },
{
    let re = regex::Regex::new("^Firefox(.+?)-(.+?)$").unwrap();
    re.captures(name).and_then(
        |caps| caps.get(1).zip(caps.get(2)).map(|(c, id)| (c.as_str().to_string(), id.as_str().to_string())),
    )
}

/// One store entry that the service keeps in shape.
#[derive(Clone, Debug, PartialEq, Eq)]
pub struct TrackedKey {
    /// The association type, such as `HTML` or `URL`.
    pub category: String,
    /// The suffix tying the entry to one installation; never empty.
    pub install_id: String,
}

impl View for TrackedKey {
    type V = (Seq<char>, Seq<char>);

    open spec fn view(&self) -> (Seq<char>, Seq<char>) {
        (self.category@, self.install_id@)
    }
}

pub open spec fn texts(v: Seq<String>) -> Seq<Seq<char>> {
    v.map_values(|s: String| s@)
}

pub open spec fn key_views(v: Seq<TrackedKey>) -> Seq<(Seq<char>, Seq<char>)> {
    v.map_values(|k: TrackedKey| k@)
}

/// A name carries the prefix and the pattern splits it.
pub open spec fn is_tracked_name(name: Seq<char>) -> bool {
    has_prefix(name, family_prefix()) && key_name_parts(name) is Some
}

/// A name carries the prefix but the pattern does not split it.
pub open spec fn is_rejected_name(name: Seq<char>) -> bool {
    has_prefix(name, family_prefix()) && key_name_parts(name) is None
}

/// The tracked keys that a list of names yields, in the list's order.
pub open spec fn located_keys(names: Seq<Seq<char>>) -> Seq<(Seq<char>, Seq<char>)>
    decreases names.len(),
{
    if names.len() == 0 {
        seq![]
    } else {
        let rest = located_keys(names.drop_last());
        if is_tracked_name(names.last()) {
            rest.push(key_name_parts(names.last())->0)
        } else {
            rest
        }
    }
}

/// The names that carry the prefix but are skipped, in the list's order.
pub open spec fn rejected_names(names: Seq<Seq<char>>) -> Seq<Seq<char>>
    decreases names.len(),
{
    if names.len() == 0 {
        seq![]
    } else {
        let rest = rejected_names(names.drop_last());
        if is_rejected_name(names.last()) {
            rest.push(names.last())
        } else {
            rest
        }
    }
}

/// What a scan of the store's entry names found.
pub struct Located {
    /// The tracked keys, in the order of the names.
    pub keys: Vec<TrackedKey>,
    /// Names that carry the prefix but do not fit the pattern; each is worth
    /// a warning.
    pub rejected: Vec<String>,
}

/// Scans entry names: those without the prefix are passed over, those with
/// it are split into category and install identifier, or else rejected.
pub fn locate(names: &Vec<String>) -> (r: Located)
    ensures
        key_views(r.keys@) == located_keys(texts(names@)),
        texts(r.rejected@) == rejected_names(texts(names@)),
        forall|i: int|
            0 <= i < r.keys@.len() ==> (#[trigger] r.keys@[i]).install_id@.len() > 0
                && r.keys@[i].category@.len() > 0,
{
    let mut keys: Vec<TrackedKey> = Vec::new();
    let mut rejected: Vec<String> = Vec::new();
    let mut i: usize = 0;
    proof {
        reveal_strlit("Firefox");
    }
    assert("Firefox"@ =~= family_prefix());
    while i < names.len()
        invariant
            i <= names@.len(),
            key_views(keys@) == located_keys(texts(names@).subrange(0, i as int)),
            texts(rejected@) == rejected_names(texts(names@).subrange(0, i as int)),
            forall|k: int|
                0 <= k < keys@.len() ==> (#[trigger] keys@[k]).install_id@.len() > 0
                    && keys@[k].category@.len() > 0,
            "Firefox"@ == family_prefix(),
        decreases names@.len() - i,
    {
        let name = &names[i];
        let ghost seen = texts(names@).subrange(0, i + 1);
        assert(seen.drop_last() =~= texts(names@).subrange(0, i as int));
        assert(seen.last() == name@);
        if starts_with_text(name.as_str(), "Firefox") {
            match split_key_name(name.as_str()) {
                Some((category, install_id)) => {
                    let key = TrackedKey { category, install_id };
                    keys.push(key);
                    assert(key_views(keys@) =~= located_keys(seen));
                },
                None => {
                    rejected.push(name.clone());
                    assert(texts(rejected@) =~= rejected_names(seen));
                },
            }
        }
        i = i + 1;
    }
    assert(texts(names@).subrange(0, i as int) =~= texts(names@));
    Located { keys, rejected }
}

/// Where, below an entry, its launch command sits.
pub const COMMAND_SUBKEY: &'static str = "\\shell\\open\\command";

/// The category whose entry holds the override block.
pub const OVERRIDE_CATEGORY: &'static str = "HTML";

/// The path of an entry's launch command: the entry's name, then the
/// command's place below it.
pub open spec fn entry_path(category: Seq<char>, install_id: Seq<char>) -> Seq<char> {
    family_prefix() + category + seq!['-'] + install_id + COMMAND_SUBKEY@
}

fn build_entry_path(category: &str, install_id: &str) -> (r: String)
    ensures
        r@ == entry_path(category@, install_id@),
{
    let mut path = String::from_str("Firefox");
    path.append(category);
    path.append("-");
    path.append(install_id);
    path.append(COMMAND_SUBKEY);
    proof {
        reveal_strlit("Firefox");
        reveal_strlit("-");
    }
    assert(path@ =~= entry_path(category@, install_id@));
    path
}

/// The path of the launch command that reconciliation checks for `key`.
pub fn launch_entry_path(key: &TrackedKey) -> (r: String)
    ensures
        r@ == entry_path(key.category@, key.install_id@),
{
    build_entry_path(key.category.as_str(), key.install_id.as_str())
}

/// The path of the override block for an installation: it sits with the
/// `HTML` association's launch command.
pub fn override_block_path(install_id: &str) -> (r: String)
    ensures
        r@ == entry_path(OVERRIDE_CATEGORY@, install_id@),
{
    build_entry_path(OVERRIDE_CATEGORY, install_id)
}

/// The install identifier whose override block the configuration is read
/// from: that of the first tracked key. `None` where nothing was tracked, in
/// which case the service has nothing to do and stops.
pub fn override_install_id(keys: &Vec<TrackedKey>) -> (r: Option<String>)
    ensures
        r is None <==> keys@.len() == 0,
        r is Some ==> r->0@ == keys@[0].install_id@,
{
    if keys.len() == 0 {
        None
    } else {
        Some(keys[0].install_id.clone())
    }
}

} // verus!
