//! The folder of installed packs: which of its entries are packs, how a new
//! pack folder is named, and how pack names are shown in a list.

use crate::text::{decimal_digits, format_number, lemma_decimal_digits_value, same_text};
use vstd::prelude::*;
use vstd::set_lib::{lemma_int_range, lemma_len_subset, lemma_map_size, set_int_range};
use vstd::string::*;

verus! {

/// The longest pack name, in bytes, that a list shows in full.
pub const LISTED_NAME_LIMIT: usize = 28;

/// One entry of the folder of installed packs.
#[derive(Debug)]
pub struct FolderEntry {
    /// The name of the entry.
    pub name: String,
    /// Whether the entry is a folder.
    pub is_dir: bool,
    /// The names of the files directly inside it, if it is a folder.
    pub files: Vec<String>,
}

/// Whether a file name is one of the two names of a pack configuration.
pub open spec fn is_config_name(name: Seq<char>) -> bool {
    name == "config.json5"@ || name == "config.json"@
}

/// Whether one of the files is a pack configuration.
pub open spec fn holds_config(files: Seq<String>) -> bool {
    exists|i: int| 0 <= i < files.len() && is_config_name(#[trigger] files[i]@)
}

/// The names of the installed packs among the entries of a folder, in the
/// order of the entries: the folders that hold a pack configuration.
pub open spec fn installed(entries: Seq<FolderEntry>) -> Seq<Seq<char>>
    decreases entries.len(),
{
    if entries.len() == 0 {
        Seq::empty()
    } else {
        let rest = installed(entries.drop_last());
        if entries.last().is_dir && holds_config(entries.last().files@) {
            rest.push(entries.last().name@)
        } else {
            rest
        }
    }
}

/// Whether a folder with these files holds a pack configuration.
pub fn has_config_file(files: &Vec<String>) -> (found: bool)
    ensures
        found == holds_config(files@),
{
    let mut i: usize = 0;
    while i < files.len()
        invariant
            0 <= i <= files@.len(),
            forall|j: int| 0 <= j < i ==> !is_config_name(#[trigger] files@[j]@),
        decreases files.len() - i,
    {
        let name = files[i].as_str();
        if same_text(name, "config.json5") || same_text(name, "config.json") {
            return true;
        }
        i = i + 1;
    }
    false
}

/// Lists the installed packs: the name of every entry that is a folder and
/// holds a pack configuration.
pub fn list_installed(entries: Vec<FolderEntry>) -> (packs: Vec<String>)
    ensures
        packs.deep_view() == installed(entries@),
{
    let mut packs: Vec<String> = Vec::new();
    let ghost all = entries@;
    for entry in it: entries
        invariant
            it.seq() == all,
            packs.deep_view() == installed(all.subrange(0, it.index() as int)),
    {
        let ghost longer = all.subrange(0, it.index() + 1);
        let ghost before = packs.deep_view();
        assert(longer.drop_last() =~= all.subrange(0, it.index() as int));
        assert(longer.last() == entry);
        if entry.is_dir && has_config_file(&entry.files) {
            packs.push(entry.name);
            assert(packs.deep_view() =~= before.push(entry.name@));
        }
    }
    assert(all.subrange(0, all.len() as int) =~= all);
    packs
}

/// The folder name tried in the `n`-th place for a new pack: "New pack"
/// first, then "New pack (2)", "New pack (3)" and so on.
pub open spec fn folder_candidate(n: nat) -> Seq<char> {
    if n <= 1 {
        "New pack"@
    } else {
        "New pack ("@ + decimal_digits(n) + ")"@
    }
}

/// Whether a name is among the existing ones.
pub open spec fn taken(existing: Seq<String>, name: Seq<char>) -> bool {
    exists|i: int| 0 <= i < existing.len() && (#[trigger] existing[i])@ == name
}

/// Whether the `n`-th candidate is the first that is free.
pub open spec fn first_free(existing: Seq<String>, n: nat) -> bool {
    &&& n >= 1
    &&& !taken(existing, folder_candidate(n))
    &&& forall|m: nat| 1 <= m < n ==> taken(existing, #[trigger] folder_candidate(m))
}

/// No two places share a folder name.
pub proof fn lemma_candidates_differ(n: nat, m: nat)
    requires
        n >= 1,
        m >= 1,
        n != m,
    ensures
        folder_candidate(n) != folder_candidate(m),
{
    reveal_strlit("New pack");
    reveal_strlit("New pack (");
    reveal_strlit(")");
    lemma_decimal_digits_value(n);
    lemma_decimal_digits_value(m);
    let head = "New pack ("@;
    let tail = ")"@;
    if n >= 2 && m >= 2 {
        let a = head + decimal_digits(n) + tail;
        let b = head + decimal_digits(m) + tail;
        if a == b {
            assert(a.subrange(10, a.len() - 1) =~= decimal_digits(n));
            assert(b.subrange(10, b.len() - 1) =~= decimal_digits(m));
        }
    } else if n >= 2 {
        assert((head + decimal_digits(n) + tail).len() > 8);
    } else {
        assert((head + decimal_digits(m) + tail).len() > 8);
    }
}

/// Among the first places, one more than there are existing names, some
/// folder name is free.
pub proof fn lemma_some_candidate_is_free(existing: Seq<String>)
    ensures
        exists|n: nat|
            1 <= n <= existing.len() + 1 && !taken(existing, #[trigger] folder_candidate(n)),
{
    let count = existing.len() as int;
    if forall|n: nat| 1 <= n <= count + 1 ==> taken(existing, #[trigger] folder_candidate(n)) {
        let holder = |n: int|
            choose|i: int|
                0 <= i < existing.len() && (#[trigger] existing[i])@ == folder_candidate(n as nat);
        let places = set_int_range(1, count + 2);
        let holders = places.map(holder);
        lemma_int_range(1, count + 2);
        lemma_int_range(0, count);
        assert forall|n: int| places.contains(n) implies 0 <= #[trigger] holder(n) < count
            && existing[holder(n)]@ == folder_candidate(n as nat) by {}
        assert forall|n: int, m: int|
            places.contains(n) && places.contains(m) && #[trigger] holder(n) == #[trigger] holder(
                m,
            ) implies n == m by {
            if n != m {
                lemma_candidates_differ(n as nat, m as nat);
            }
        }
        lemma_map_size(places, holders, holder);
        assert(holders.subset_of(set_int_range(0, count))) by {
            assert forall|i: int| holders.contains(i) implies set_int_range(0, count).contains(
                i,
            ) by {}
        }
        lemma_len_subset(holders, set_int_range(0, count));
    }
}

fn is_taken(existing: &Vec<String>, name: &str) -> (found: bool)
    ensures
        found == taken(existing@, name@),
{
    let mut i: usize = 0;
    while i < existing.len()
        invariant
            0 <= i <= existing@.len(),
            forall|j: int| 0 <= j < i ==> (#[trigger] existing@[j])@ != name@,
        decreases existing.len() - i,
    {
        if same_text(existing[i].as_str(), name) {
            return true;
        }
        i = i + 1;
    }
    false
}

fn candidate_name(n: u32) -> (name: String)
    requires
        n >= 1,
    ensures
        name@ == folder_candidate(n as nat),
{
    if n == 1 {
        "New pack".to_owned()
    } else {
        let mut name = "New pack (".to_owned();
        name.append(format_number(n).as_str());
        name.append(")");
        name
    }
}

/// Picks the folder name of a new pack: the first of "New pack",
/// "New pack (2)", "New pack (3)", ... that is not among the existing names.
/// `None` only where every candidate up to the largest number is taken, which
/// takes as many existing names.
pub fn create_new_pack(existing: &Vec<String>) -> (name: Option<String>)
    ensures
        existing@.len() < u32::MAX ==> name is Some,
        match name {
            Some(name) => exists|n: nat|
                n <= u32::MAX && first_free(existing@, n) && name@ == #[trigger] folder_candidate(
                    n,
                ),
            None => forall|m: nat|
                1 <= m <= u32::MAX ==> taken(existing@, #[trigger] folder_candidate(m)),
        },
{
    let mut counter: u32 = 1;
    loop
        invariant
            counter >= 1,
            forall|m: nat| 1 <= m < counter ==> taken(existing@, #[trigger] folder_candidate(m)),
        decreases u32::MAX - counter,
    {
        let name = candidate_name(counter);
        if !is_taken(existing, name.as_str()) {
            assert(first_free(existing@, counter as nat));
            return Some(name);
        }
        if counter == u32::MAX {
            proof {
                lemma_some_candidate_is_free(existing@);
            }
            return None;
        }
        counter = counter + 1;
    }
}

/// A pack name as a list shows it: in full where it has at most 28 bytes,
/// else its first 28 characters followed by an ellipsis.
pub open spec fn listed_name(name: Seq<char>) -> Seq<char> {
    if vstd::utf8::encode_utf8(name).len() > LISTED_NAME_LIMIT {
        if name.len() > LISTED_NAME_LIMIT {
            name.subrange(0, LISTED_NAME_LIMIT as int) + "\u{2026}"@
        } else {
            name + "\u{2026}"@
        }
    } else {
        name
    }
}

fn shorten(name: String) -> (shown: String)
    ensures
        shown@ == listed_name(name@),
{
    if name.as_str().as_bytes().len() > LISTED_NAME_LIMIT {
        let length = name.as_str().unicode_len();
        let kept = if length > LISTED_NAME_LIMIT {
            LISTED_NAME_LIMIT
        } else {
            length
        };
        let mut shown = name.as_str().substring_char(0, kept).to_owned();
        shown.append("\u{2026}");
        shown
    } else {
        name
    }
}

/// Prepares pack names for a list: each name as `listed_name` shows it, in
/// the same order.
pub fn format_pack_list(packs: Vec<String>) -> (shown: Vec<String>)
    ensures
        shown@.len() == packs@.len(),
        forall|i: int| 0 <= i < packs@.len() ==> (#[trigger] shown@[i])@ == listed_name(packs@[i]@),
{
    let mut shown: Vec<String> = Vec::new();
    let ghost all = packs@;
    for name in it: packs
        invariant
            it.seq() == all,
            shown@.len() == it.index(),
            forall|i: int| 0 <= i < it.index() ==> (#[trigger] shown@[i])@ == listed_name(all[i]@),
    {
        shown.push(shorten(name));
    }
    shown
}

} // verus!
