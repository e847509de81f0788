//! Properties that hold across the library's operations.
use vstd::prelude::*;

use crate::mode_bits::{directory_type, file_type_mask, regular_file_type};
use crate::scan::{breaks, first_breach, scan_verdict, EntryRule};
use crate::system_access::{
    entries_under, keys_of, law_lookup_upsert, lemma_entries_under_keys_unique,
    lemma_entries_under_members, lemma_lookup_member, lookup, starts_with, upsert, FileMetadata,
    SystemAccess, UnitTestSystemAccess,
};
use crate::text::{has_substring, has_word, occurs_at};
use crate::results::CheckStatus;
use crate::{string_search, strings_search, word_search, all_in_lines, string_in_lines, word_in_lines};
use vstd::utf8::encode_utf8;

verus! {

/// A file registered on a prepared system reads back with the registered contents,
/// and then exists; files at other paths read as before.
pub proof fn law_registered_file_reads_back(
    before: UnitTestSystemAccess,
    after: UnitTestSystemAccess,
    path: Seq<char>,
    contents: Seq<char>,
    other: Seq<char>,
    c: Option<Seq<u8>>,
)
    requires
        after.files_view() == upsert(before.files_view(), path, contents),
    ensures
        after.open_outcome(path, Some(encode_utf8(contents))),
        after.presence_outcome(path, true),
        other != path ==> (after.open_outcome(other, c) == before.open_outcome(other, c)),
{
    law_lookup_upsert(before.files_view(), path, contents, other);
}

/// Registered metadata is what asking for the metadata of that path gives.
pub proof fn law_registered_metadata_reads_back(
    before: UnitTestSystemAccess,
    after: UnitTestSystemAccess,
    path: Seq<char>,
    m: FileMetadata,
    other: Seq<char>,
    found: Option<FileMetadata>,
)
    requires
        after.metadata_view() == upsert(before.metadata_view(), path, m),
    ensures
        after.metadata_outcome(path, Some(m)),
        other != path ==> (after.metadata_outcome(other, found) == before.metadata_outcome(other, found)),
{
    law_lookup_upsert(before.metadata_view(), path, m, other);
}

/// A registered command output is what running that command with those arguments gives.
pub proof fn law_registered_command_runs_back(
    before: UnitTestSystemAccess,
    after: UnitTestSystemAccess,
    cmd: Seq<char>,
    args: Seq<Seq<char>>,
    output: (bool, Seq<u8>, Seq<u8>),
    other: (Seq<char>, Seq<Seq<char>>),
    o: Option<(bool, Seq<u8>, Seq<u8>)>,
)
    requires
        after.commands_view() == upsert(before.commands_view(), (cmd, args), output),
    ensures
        after.command_outcome(cmd, args, Some(output)),
        other != (cmd, args) ==> (after.command_outcome(other.0, other.1, o)
            == before.command_outcome(other.0, other.1, o)),
{
    law_lookup_upsert(before.commands_view(), (cmd, args), output, other);
}

/// On a prepared system a path exists exactly when opening it succeeds.
pub proof fn law_exists_iff_opens(s: UnitTestSystemAccess, path: Seq<char>, present: bool, c: Option<Seq<u8>>)
    requires
        s.presence_outcome(path, present),
        s.open_outcome(path, c),
    ensures
        present <==> c is Some,
{
}

/// A prepared system answers each request in exactly one way.
pub proof fn law_prepared_system_is_deterministic(
    s: UnitTestSystemAccess,
    path: Seq<char>,
    c1: Option<Seq<u8>>,
    c2: Option<Seq<u8>>,
    m1: Option<FileMetadata>,
    m2: Option<FileMetadata>,
    cmd: Seq<char>,
    args: Seq<Seq<char>>,
    o1: Option<(bool, Seq<u8>, Seq<u8>)>,
    o2: Option<(bool, Seq<u8>, Seq<u8>)>,
)
    ensures
        s.open_outcome(path, c1) && s.open_outcome(path, c2) ==> c1 == c2,
        s.metadata_outcome(path, m1) && s.metadata_outcome(path, m2) ==> m1 == m2,
        s.command_outcome(cmd, args, o1) && s.command_outcome(cmd, args, o2) ==> o1 == o2,
{
}

/// Walking a prepared system yields exactly the entries with registered metadata whose
/// paths begin with the walked path.
pub proof fn law_walk_yields_entries_under(
    s: UnitTestSystemAccess,
    path: Seq<char>,
    entries: Seq<(Seq<char>, FileMetadata)>,
)
    requires
        s.walk_outcome(path, entries),
    ensures
        entries == entries_under(s.metadata_view(), path),
{
}

/// Walking a prepared system lists each path whose metadata was registered and that
/// begins with the walked path exactly once, with the metadata registered last for
/// it, and lists nothing else (files registered without metadata are never listed).
/// A prepared system never holds two registrations for one path (its type
/// invariant), which is what the law assumes of it.
pub proof fn law_walk_lists_each_registered_path_once(
    s: UnitTestSystemAccess,
    path: Seq<char>,
    entries: Seq<(Seq<char>, FileMetadata)>,
    p: Seq<char>,
    m: FileMetadata,
)
    requires
        keys_of(s.metadata_view()).no_duplicates(),
        s.walk_outcome(path, entries),
    ensures
        keys_of(entries).no_duplicates(),
        entries.contains((p, m)) <==> (starts_with(p, path) && lookup(s.metadata_view(), p) == Some(
            m,
        )),
{
    lemma_entries_under_keys_unique(s.metadata_view(), path);
    lemma_entries_under_members(s.metadata_view(), path, (p, m));
    lemma_lookup_member(s.metadata_view(), p, m);
}

/// A whitespace-separated word of a line is also a substring of it, so a file in which
/// the word search finds a word is one in which the string search finds it too.
pub proof fn law_word_found_implies_string_found(contents: Option<Seq<u8>>, word: Seq<char>)
    ensures
        word_search(contents, word) == Some(true) ==> string_search(contents, word) == Some(true),
        word_search(contents, word) is None <==> string_search(contents, word) is None,
{
    if let Some(c) = contents {
        let lines = crate::text::file_lines(c);
        if word_in_lines(lines, word) {
            let i = choose|i: int| 0 <= i < lines.len() && has_word(#[trigger] lines[i], word);
            let k = choose|k: int| crate::text::word_at(lines[i], word, k);
            assert(occurs_at(lines[i], word, k));
            assert(has_substring(lines[i], word));
        }
    }
}

/// Searching for a list holding one string is searching for that string.
pub proof fn law_single_string_search(contents: Option<Seq<u8>>, needle: Seq<char>)
    ensures
        strings_search(contents, seq![needle]) == string_search(contents, needle),
{
    if let Some(c) = contents {
        let lines = crate::text::file_lines(c);
        if string_in_lines(lines, needle) {
            assert forall|j: int| 0 <= j < 1 implies string_in_lines(lines, #[trigger] seq![needle][j]) by {
                assert(seq![needle][j] == needle);
            }
        }
        if all_in_lines(lines, seq![needle]) {
            assert(string_in_lines(lines, seq![needle][0]));
        }
    }
}

/// Searching for several strings finds them all exactly when each one, searched for
/// alone, is found.
pub proof fn law_all_strings_found_each(contents: Seq<u8>, needles: Seq<Seq<char>>)
    ensures
        strings_search(Some(contents), needles) == Some(true) <==> forall|j: int|
            0 <= j < needles.len() ==> string_search(Some(contents), #[trigger] needles[j]) == Some(
                true,
            ),
{
}

/// No mode describes both a regular file and a directory.
pub proof fn law_file_and_dir_exclusive(m: FileMetadata)
    ensures
        !(m.spec_is_file() && m.spec_is_dir()),
{
    assert(regular_file_type() != directory_type());
}

/// Directories never break the permission rules, so a tree holding only directories
/// passes every permission scan.
pub proof fn law_directories_pass_permission_scans(
    entries: Seq<(Seq<char>, FileMetadata)>,
    rule: EntryRule,
)
    requires
        rule != EntryRule::OwnedByRoot,
        forall|k: int| 0 <= k < entries.len() ==> (#[trigger] entries[k]).1.spec_is_dir(),
    ensures
        scan_verdict(entries, rule) == (CheckStatus::PASS, Seq::<char>::empty()),
{
    assert forall|k: int| 0 <= k < entries.len() implies !breaks(rule, #[trigger] entries[k]) by {
        law_file_and_dir_exclusive(entries[k].1);
    }
    lemma_no_breach(entries, rule);
}

/// A tree whose entries are all owned by root:root passes the ownership scan.
pub proof fn law_root_owned_tree_passes(entries: Seq<(Seq<char>, FileMetadata)>)
    requires
        forall|k: int| 0 <= k < entries.len() ==> (#[trigger] entries[k]).1.uid == 0 && entries[k].1.gid
            == 0,
    ensures
        scan_verdict(entries, EntryRule::OwnedByRoot) == (CheckStatus::PASS, Seq::<char>::empty()),
{
    lemma_no_breach(entries, EntryRule::OwnedByRoot);
}

proof fn lemma_no_breach(s: Seq<(Seq<char>, FileMetadata)>, rule: EntryRule)
    requires
        forall|k: int| 0 <= k < s.len() ==> !breaks(rule, #[trigger] s[k]),
    ensures
        first_breach(s, rule) == s.len(),
    decreases s.len(),
{
    if s.len() > 0 {
        let t = s.drop_first();
        assert forall|k: int| 0 <= k < t.len() implies !breaks(rule, #[trigger] t[k]) by {
            assert(t[k] == s[k + 1]);
        }
        lemma_no_breach(t, rule);
    }
}

} // verus!
