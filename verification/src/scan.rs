//! Scanning the entries of a directory tree for the first one that breaks a rule.
use vstd::prelude::*;

use crate::format::{debug_path, path_debug_text, push_number, radix_text};
use crate::mode_bits::{no_x_xw_xw, no_x_xwr_xwr, not_600_bits, not_644_bits};
use crate::results::{passed, CheckStatus, CheckerResult};
use crate::system_access::{walked, DirEntry, FileMetadata};

verus! {

/// What `Path::new(p).extension()` gives for the path `p`, as text.
pub uninterp spec fn path_extension(p: Seq<char>) -> Option<Seq<char>>;

/// `std::path::Path::extension`: the extension of the path's file name (the part
/// after its last `.`), or nothing.
#[verifier::external_body]
fn extension_of(path: &str) -> (r: Option<String>)
    ensures
        match r {
            Some(e) => path_extension(path@) == Some(e@),
            None => path_extension(path@) is None,
        },
{
    match std::path::Path::new(path).extension() {
        Some(e) => Some(e.to_string_lossy().into_owned()),
        None => None,
    }
}

/// The path's extension is `ext` (a path without extension counts as having the
/// empty one).
pub open spec fn has_extension(p: Seq<char>, ext: Seq<char>) -> bool {
    match path_extension(p) {
        Some(e) => e == ext,
        None => ext.len() == 0,
    }
}

/// A rule that every entry of a directory tree must keep.
#[derive(Clone, Copy, Debug, PartialEq, Eq, Structural)]
pub enum EntryRule {
    /// Regular files grant no permission to others.
    NoAccessForOthers,
    /// Every entry is owned by root:root.
    OwnedByRoot,
    /// Regular files are set to 644 or more restrictive.
    FilesAt644,
    /// Files ending in `.crt` are set to 644 or more restrictive.
    CertificatesAt644,
    /// Files ending in `.key` are set to 600 or more restrictive.
    KeysAt600,
}

/// The entry breaks the rule.
pub open spec fn breaks(rule: EntryRule, e: (Seq<char>, FileMetadata)) -> bool {
    match rule {
        EntryRule::NoAccessForOthers => e.1.spec_is_file() && e.1.mode & 0b111 > 0,
        EntryRule::OwnedByRoot => e.1.uid != 0 || e.1.gid != 0,
        EntryRule::FilesAt644 => e.1.spec_is_file() && e.1.mode & not_644_bits() > 0,
        EntryRule::CertificatesAt644 => !e.1.spec_is_dir() && has_extension(e.0, "crt"@) && e.1.mode
            & not_644_bits() > 0,
        EntryRule::KeysAt600 => !e.1.spec_is_dir() && has_extension(e.0, "key"@) && e.1.mode
            & not_600_bits() > 0,
    }
}

/// The explanation reported for an entry that breaks the rule.
pub open spec fn breach_message(rule: EntryRule, e: (Seq<char>, FileMetadata)) -> Seq<char> {
    let file = "file "@ + path_debug_text(e.0);
    match rule {
        EntryRule::NoAccessForOthers => file + " has permissions for 'other'"@,
        EntryRule::OwnedByRoot => file + " has non-root ownership ("@ + radix_text(e.1.uid as nat, 10)
            + ":"@ + radix_text(e.1.gid as nat, 10) + ")"@,
        EntryRule::FilesAt644 => file + " has invalid permissions"@,
        EntryRule::CertificatesAt644 => file + " must be set to 644 or more restrictive"@,
        EntryRule::KeysAt600 => file + " must be set to 600 or more restrictive"@,
    }
}

/// Index of the first entry that breaks the rule, or the number of entries.
pub open spec fn first_breach(s: Seq<(Seq<char>, FileMetadata)>, rule: EntryRule) -> int
    decreases s.len(),
{
    if s.len() == 0 {
        0
    } else if breaks(rule, s[0]) {
        0
    } else {
        1 + first_breach(s.drop_first(), rule)
    }
}

/// The result of scanning entries with a rule: failed with the explanation for the
/// first entry that breaks it, passed when none does.
pub open spec fn scan_verdict(entries: Seq<(Seq<char>, FileMetadata)>, rule: EntryRule) -> (
    CheckStatus,
    Seq<char>,
) {
    let i = first_breach(entries, rule);
    if 0 <= i < entries.len() {
        (CheckStatus::FAIL, breach_message(rule, entries[i]))
    } else {
        (CheckStatus::PASS, Seq::empty())
    }
}

pub proof fn lemma_first_breach_found(s: Seq<(Seq<char>, FileMetadata)>, rule: EntryRule, i: int)
    requires
        0 <= i < s.len(),
        breaks(rule, s[i]),
        forall|k: int| 0 <= k < i ==> !breaks(rule, #[trigger] s[k]),
    ensures
        first_breach(s, rule) == i,
    decreases i,
{
    if i > 0 {
        let t = s.drop_first();
        assert forall|k: int| 0 <= k < i - 1 implies !breaks(rule, #[trigger] t[k]) by {
            assert(t[k] == s[k + 1]);
        }
        lemma_first_breach_found(t, rule, i - 1);
    }
}

pub proof fn lemma_first_breach_absent(s: Seq<(Seq<char>, FileMetadata)>, rule: EntryRule)
    requires
        forall|k: int| 0 <= k < s.len() ==> !breaks(rule, #[trigger] s[k]),
    ensures
        first_breach(s, rule) == s.len(),
    decreases s.len(),
{
    if s.len() > 0 {
        let t = s.drop_first();
        assert forall|k: int| 0 <= k < t.len() implies !breaks(rule, #[trigger] t[k]) by {
            assert(t[k] == s[k + 1]);
        }
        lemma_first_breach_absent(t, rule);
    }
}

fn entry_has_extension(path: &str, ext: &str) -> (r: bool)
    ensures
        r == has_extension(path@, ext@),
{
    match extension_of(path) {
        Some(e) => e == ext.to_owned(),
        None => ext.is_empty(),
    }
}

/// Whether the entry breaks the rule.
pub fn breaks_rule(rule: EntryRule, entry: &DirEntry) -> (r: bool)
    ensures
        r == breaks(rule, entry@),
{
    let m = entry.metadata;
    match rule {
        EntryRule::NoAccessForOthers => m.is_file() && (m.mode & 0b111) > 0,
        EntryRule::OwnedByRoot => m.uid != 0 || m.gid != 0,
        EntryRule::FilesAt644 => m.is_file() && (m.mode & no_x_xw_xw()) > 0,
        EntryRule::CertificatesAt644 => {
            proof {
                reveal_strlit("crt");
            }
            !m.is_dir() && entry_has_extension(entry.path.as_str(), "crt") && (m.mode & no_x_xw_xw())
                > 0
        },
        EntryRule::KeysAt600 => {
            proof {
                reveal_strlit("key");
            }
            !m.is_dir() && entry_has_extension(entry.path.as_str(), "key") && (m.mode
                & no_x_xwr_xwr()) > 0
        },
    }
}

/// The explanation for an entry that breaks the rule.
pub fn breach_explanation(rule: EntryRule, entry: &DirEntry) -> (r: String)
    ensures
        r@ == breach_message(rule, entry@),
{
    let mut error = "file ".to_owned();
    let quoted = debug_path(entry.path.as_str());
    error.append(quoted.as_str());
    match rule {
        EntryRule::NoAccessForOthers => error.append(" has permissions for 'other'"),
        EntryRule::OwnedByRoot => {
            error.append(" has non-root ownership (");
            push_number(&mut error, entry.metadata.uid, 10);
            error.append(":");
            push_number(&mut error, entry.metadata.gid, 10);
            error.append(")");
        },
        EntryRule::FilesAt644 => error.append(" has invalid permissions"),
        EntryRule::CertificatesAt644 => error.append(" must be set to 644 or more restrictive"),
        EntryRule::KeysAt600 => error.append(" must be set to 600 or more restrictive"),
    }
    error
}

/// Scans the entries in order and reports the first one that breaks the rule.
pub fn scan_entries(entries: &Vec<DirEntry>, rule: EntryRule) -> (r: CheckerResult)
    ensures
        r@ == scan_verdict(walked(entries@), rule),
{
    let ghost es = walked(entries@);
    let mut i: usize = 0;
    while i < entries.len()
        invariant
            i <= entries@.len(),
            es == walked(entries@),
            forall|k: int| 0 <= k < i ==> !breaks(rule, #[trigger] es[k]),
        decreases entries.len() - i,
    {
        assert(es[i as int] == entries@[i as int]@);
        if breaks_rule(rule, &entries[i]) {
            proof {
                lemma_first_breach_found(es, rule, i as int);
            }
            let error = breach_explanation(rule, &entries[i]);
            return CheckerResult { status: CheckStatus::FAIL, error };
        }
        i = i + 1;
    }
    proof {
        lemma_first_breach_absent(es, rule);
    }
    passed()
}

} // verus!
