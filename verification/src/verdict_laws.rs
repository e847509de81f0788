//! What the shared checks decide, stated in terms of the text, bits and owners
//! they look at.
use vstd::prelude::*;

use crate::cis_checks::{
    input_rules_missing, lines_with_pairs, pair_in, pairs_in_order, selinux_settings,
    selinux_verdict, some_pair_in,
};
use crate::results::CheckStatus;
use crate::scan::{
    breach_message, breaks, first_breach, has_extension, lemma_first_breach_absent,
    lemma_first_breach_found, scan_verdict, EntryRule,
};
use crate::system_access::FileMetadata;
use crate::text::{has_substring, output_lines};
use crate::{not_mode_verdict, root_owner_verdict};

verus! {

/// A line holds both the label and the value of one of the settings.
pub open spec fn shows_a_setting(line: Seq<char>, settings: Seq<(Seq<char>, Seq<char>)>) -> bool {
    exists|k: int|
        0 <= k < settings.len() && has_substring(line, (#[trigger] settings[k]).0) && has_substring(
            line,
            settings[k].1,
        )
}

/// A line counts towards a setting only when it holds both the setting's label and
/// its expected value: a label with another value does not count.
pub proof fn law_setting_line_needs_label_and_value(
    line: Seq<char>,
    settings: Seq<(Seq<char>, Seq<char>)>,
)
    ensures
        some_pair_in(line, settings) <==> shows_a_setting(line, settings),
        (forall|k: int| 0 <= k < settings.len() ==> !has_substring(line, #[trigger] settings[k].1))
            ==> !some_pair_in(line, settings),
{
    if some_pair_in(line, settings) {
        let k = choose|k: int| 0 <= k < settings.len() && pair_in(line, #[trigger] settings[k]);
        assert(has_substring(line, settings[k].0) && has_substring(line, settings[k].1));
    }
    if shows_a_setting(line, settings) {
        let k = choose|k: int|
            0 <= k < settings.len() && has_substring(line, (#[trigger] settings[k]).0)
                && has_substring(line, settings[k].1);
        assert(pair_in(line, settings[k]));
    }
}

proof fn lemma_count_is_filter_length(lines: Seq<Seq<char>>, settings: Seq<(Seq<char>, Seq<char>)>)
    ensures
        lines_with_pairs(lines, settings) == lines.filter(
            |l: Seq<char>| shows_a_setting(l, settings),
        ).len(),
    decreases lines.len(),
{
    reveal(Seq::filter);
    let pred = |l: Seq<char>| shows_a_setting(l, settings);
    if lines.len() > 0 {
        lemma_count_is_filter_length(lines.drop_last(), settings);
        law_setting_line_needs_label_and_value(lines.last(), settings);
        let sub = lines.drop_last().filter(pred);
        assert(lines.filter(pred) == if pred(lines.last()) {
            sub.push(lines.last())
        } else {
            sub
        });
    }
}

/// On a successful `sestatus` listing the SELinux check passes or fails, never
/// skips; it passes exactly when seven lines each show the label and the expected
/// value of one setting.
pub proof fn law_selinux_passes_on_seven_shown_settings(out: Seq<u8>, err: Seq<u8>)
    ensures
        selinux_verdict(Some((true, out, err))).0 != CheckStatus::SKIP,
        selinux_verdict(Some((true, out, err))).0 == CheckStatus::PASS <==> output_lines(out).filter(
            |l: Seq<char>| shows_a_setting(l, selinux_settings()),
        ).len() == 7,
        selinux_verdict(Some((false, out, err))).0 == CheckStatus::SKIP,
        selinux_verdict(None).0 == CheckStatus::SKIP,
{
    lemma_count_is_filter_length(output_lines(out), selinux_settings());
}

/// A line holds both parts of a rule.
pub open spec fn shows_rule(line: Seq<char>, rule: (Seq<char>, Seq<char>)) -> bool {
    has_substring(line, rule.0) && has_substring(line, rule.1)
}

/// The two INPUT rules must both be listed by a successful listing, the first on an
/// earlier line than the second: a listing in which they only come the other way
/// round misses them.
pub proof fn law_loopback_input_rules_in_order(
    out: Seq<u8>,
    err: Seq<u8>,
    first: (Seq<char>, Seq<char>),
    second: (Seq<char>, Seq<char>),
)
    ensures
        input_rules_missing(Some((true, out, err)), first, second) <==> !exists|i: int, j: int|
            #![trigger output_lines(out)[i], output_lines(out)[j]]
            0 <= i < j < output_lines(out).len() && shows_rule(output_lines(out)[i], first)
                && shows_rule(output_lines(out)[j], second),
        (forall|i: int, j: int|
            #![trigger output_lines(out)[i], output_lines(out)[j]]
            0 <= i < output_lines(out).len() && 0 <= j < output_lines(out).len() && shows_rule(
                output_lines(out)[i],
                first,
            ) && shows_rule(output_lines(out)[j], second) ==> j < i) ==> input_rules_missing(
            Some((true, out, err)),
            first,
            second,
        ),
        input_rules_missing(Some((false, out, err)), first, second),
        !input_rules_missing(None, first, second),
{
    let ls = output_lines(out);
    if pairs_in_order(ls, first, second) {
        let (i, j) = choose|i: int, j: int|
            0 <= i < j < ls.len() && #[trigger] pair_in(ls[i], first) && #[trigger] pair_in(
                ls[j],
                second,
            );
        assert(shows_rule(ls[i], first) && shows_rule(ls[j], second));
    }
    if exists|i: int, j: int|
        #![trigger ls[i], ls[j]]
        0 <= i < j < ls.len() && shows_rule(ls[i], first) && shows_rule(ls[j], second) {
        let (i, j) = choose|i: int, j: int|
            #![trigger ls[i], ls[j]]
            0 <= i < j < ls.len() && shows_rule(ls[i], first) && shows_rule(ls[j], second);
        assert(pair_in(ls[i], first) && pair_in(ls[j], second));
    }
}

/// The permission check on one file fails exactly when the file has one of the
/// forbidden permission bits among its nine permission bits (the file type bits
/// never count); it skips only when there is no metadata.
pub proof fn law_not_mode_fails_on_a_shared_permission_bit(
    md: FileMetadata,
    path: Seq<char>,
    mode: u32,
    bit: u32,
)
    ensures
        not_mode_verdict(Some(md), path, mode).0 != CheckStatus::SKIP,
        not_mode_verdict(Some(md), path, mode).0 == CheckStatus::FAIL <==> (md.mode & mode) % 512
            != 0,
        bit < 9 && md.mode & (1u32 << bit) != 0 && mode & (1u32 << bit) != 0 ==> not_mode_verdict(
            Some(md),
            path,
            mode,
        ).0 == CheckStatus::FAIL,
        not_mode_verdict(None, path, mode).0 == CheckStatus::SKIP,
{
    let x = md.mode;
    assert(((x & 0o777u32) & mode > 0) <==> (x & mode) % 512 != 0) by (bit_vector);
    assert(bit < 9 && x & (1u32 << bit) != 0 && mode & (1u32 << bit) != 0 ==> (x & 0o777u32)
        & mode > 0) by (bit_vector);
}

/// The ownership check on one file passes exactly when both its owner and its
/// group are root; any other owner or group fails it.
pub proof fn law_root_ownership_needs_uid_and_gid_zero(md: FileMetadata)
    ensures
        root_owner_verdict(Some(md)).0 == CheckStatus::PASS <==> (md.uid == 0 && md.gid == 0),
        md.uid != 0 ==> root_owner_verdict(Some(md)).0 == CheckStatus::FAIL,
        md.gid != 0 ==> root_owner_verdict(Some(md)).0 == CheckStatus::FAIL,
        root_owner_verdict(None).0 == CheckStatus::SKIP,
{
}

/// Each rule, said through the permissions it allows: files, certificates and keys
/// break their rule exactly when their nine permission bits are not within 644
/// (or 600 for keys); journal files break theirs when others have any permission;
/// every entry breaks the ownership rule unless root owns it with group root.
pub proof fn law_rules_allow_at_most(e: (Seq<char>, FileMetadata))
    ensures
        breaks(EntryRule::FilesAt644, e) <==> e.1.spec_is_file() && (e.1.mode & 0o777) | 0o644
            != 0o644,
        breaks(EntryRule::CertificatesAt644, e) <==> !e.1.spec_is_dir() && has_extension(
            e.0,
            "crt"@,
        ) && (e.1.mode & 0o777) | 0o644 != 0o644,
        breaks(EntryRule::KeysAt600, e) <==> !e.1.spec_is_dir() && has_extension(e.0, "key"@) && (
        e.1.mode & 0o777) | 0o600 != 0o600,
        breaks(EntryRule::NoAccessForOthers, e) <==> e.1.spec_is_file() && e.1.mode % 8 != 0,
        breaks(EntryRule::OwnedByRoot, e) <==> (e.1.uid != 0 || e.1.gid != 0),
{
    let x = e.1.mode;
    assert((x & 0o133u32 > 0) <==> ((x & 0o777u32) | 0o644u32 != 0o644u32)) by (bit_vector);
    assert((x & 0o177u32 > 0) <==> ((x & 0o777u32) | 0o600u32 != 0o600u32)) by (bit_vector);
    assert((x & 0b111u32 > 0) <==> (x % 8 != 0)) by (bit_vector);
}

/// A directory scan passes exactly when no entry breaks the rule; otherwise it
/// fails and names the first entry that does.
pub proof fn law_scan_names_the_first_breach(entries: Seq<(Seq<char>, FileMetadata)>, rule: EntryRule)
    ensures
        scan_verdict(entries, rule).0 == CheckStatus::PASS <==> forall|k: int|
            0 <= k < entries.len() ==> !breaks(rule, #[trigger] entries[k]),
        forall|k: int|
            0 <= k < entries.len() && breaks(rule, #[trigger] entries[k]) && (forall|j: int|
                0 <= j < k ==> !breaks(rule, #[trigger] entries[j])) ==> scan_verdict(entries, rule)
                == (CheckStatus::FAIL, breach_message(rule, entries[k])),
{
    assert forall|k: int|
        0 <= k < entries.len() && breaks(rule, #[trigger] entries[k]) && (forall|j: int|
            0 <= j < k ==> !breaks(rule, #[trigger] entries[j])) implies scan_verdict(entries, rule)
        == (CheckStatus::FAIL, breach_message(rule, entries[k])) by {
        lemma_first_breach_found(entries, rule, k);
    }
    if forall|k: int| 0 <= k < entries.len() ==> !breaks(rule, #[trigger] entries[k]) {
        lemma_first_breach_absent(entries, rule);
    } else {
        let k = choose|k: int| 0 <= k < entries.len() && breaks(rule, #[trigger] entries[k]);
        lemma_some_breach(entries, rule, k);
    }
}

proof fn lemma_some_breach(s: Seq<(Seq<char>, FileMetadata)>, rule: EntryRule, k: int)
    requires
        0 <= k < s.len(),
        breaks(rule, s[k]),
    ensures
        0 <= first_breach(s, rule) < s.len(),
    decreases s.len(),
{
    if !breaks(rule, s[0]) {
        assert(s.drop_first()[k - 1] == s[k]);
        lemma_some_breach(s.drop_first(), rule, k - 1);
    }
}

} // verus!
