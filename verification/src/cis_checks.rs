//! Checks of the Bottlerocket CIS benchmark.
use vstd::prelude::*;

use crate::scan::{scan_entries, scan_verdict, EntryRule};
use crate::results::{outcome, passed, verdict, CheckStatus, Checker, CheckerMetadata, CheckerResult, Mode};
use crate::system_access::{strs_view, FileMetadata, SystemAccess};
use crate::text::{chars_of, contains, has_substring, output_lines, read_output_lines, seqs_of};
use crate::{
    check_file_contains, check_output_contains, look_for_string_in_output, look_for_word_in_file,
    output_search, strings_search, word_search,
};

verus! {

pub const PROC_MODULES_FILE: &'static str = "/proc/modules";

pub const PROC_CMDLINE_FILE: &'static str = "/proc/cmdline";

pub const LOCKDOWN_FILE: &'static str = "/sys/kernel/security/lockdown";

pub const CHRONY_CONF_FILE: &'static str = "/etc/chrony.conf";

pub const JOURNALD_CONF_FILE: &'static str = "/usr/lib/systemd/journald.conf.d/journald.conf";

pub const JOURNAL_DIR: &'static str = "/var/log/journal";

pub const SYSCTL_CMD: &'static str = "/usr/sbin/sysctl";

pub const SYSTEMCTL_CMD: &'static str = "/usr/bin/systemctl";

pub const MODPROBE_CMD: &'static str = "/bin/modprobe";

pub const SESTATUS_CMD: &'static str = "/usr/bin/sestatus";

pub const IPTABLES_CMD: &'static str = "/usr/sbin/iptables";

pub const IP6TABLES_CMD: &'static str = "/usr/sbin/ip6tables";

/// The result of checking that a kernel module is neither loaded nor loadable:
/// `loaded` tells whether `/proc/modules` lists it (nothing when it could not be
/// read), and `modprobe` is what `modprobe -n -v` gave when it was asked.
pub open spec fn module_disabled_verdict(
    loaded: Option<bool>,
    modprobe: Option<(bool, Seq<u8>, Seq<u8>)>,
    loaded_error: Seq<char>,
    unreadable_error: Seq<char>,
    unable_to_check_error: Seq<char>,
    not_disabled_error: Seq<char>,
) -> (CheckStatus, Seq<char>) {
    match loaded {
        Some(true) => (CheckStatus::FAIL, loaded_error),
        None => (CheckStatus::SKIP, unreadable_error),
        Some(false) => verdict(
            output_search(modprobe, seq!["install /bin/true"@]),
            unable_to_check_error,
            not_disabled_error,
        ),
    }
}

/// Checks that `module` is not loaded and that `modprobe` would not load it.
pub fn module_disabled<S: SystemAccess>(
    sac: &S,
    module: &str,
    loaded_error: &str,
    unreadable_error: &str,
    unable_to_check_error: &str,
    not_disabled_error: &str,
) -> (r: CheckerResult)
    ensures
        exists|m: Option<Seq<u8>>|
            #[trigger] sac.open_outcome(PROC_MODULES_FILE@, m) && if word_search(m, module@)
                == Some(false) {
                exists|argv: Seq<Seq<char>>, o: Option<(bool, Seq<u8>, Seq<u8>)>|
                    argv == seq!["-n"@, "-v"@, module@] && #[trigger] sac.command_outcome(MODPROBE_CMD@, argv, o)
                        && r@ == module_disabled_verdict(
                        Some(false),
                        o,
                        loaded_error@,
                        unreadable_error@,
                        unable_to_check_error@,
                        not_disabled_error@,
                    )
            } else {
                r@ == module_disabled_verdict(
                    word_search(m, module@),
                    None,
                    loaded_error@,
                    unreadable_error@,
                    unable_to_check_error@,
                    not_disabled_error@,
                )
            },
{
    match look_for_word_in_file(sac, PROC_MODULES_FILE, module) {
        Ok(true) => outcome(CheckStatus::FAIL, loaded_error),
        Err(_) => outcome(CheckStatus::SKIP, unreadable_error),
        Ok(false) => {
            let args = ["-n", "-v", module];
            let wanted = ["install /bin/true"];
            assert(strs_view(args@) =~= seq!["-n"@, "-v"@, module@]);
            assert(strs_view(wanted@) =~= seq!["install /bin/true"@]);
            check_output_contains(
                sac,
                MODPROBE_CMD,
                &args,
                &wanted,
                unable_to_check_error,
                not_disabled_error,
            )
        },
    }
}

/// A line holds both parts of a pair.
pub open spec fn pair_in(line: Seq<char>, pair: (Seq<char>, Seq<char>)) -> bool {
    has_substring(line, pair.0) && has_substring(line, pair.1)
}

/// A line holds both parts of one of the pairs.
pub open spec fn some_pair_in(line: Seq<char>, pairs: Seq<(Seq<char>, Seq<char>)>) -> bool {
    exists|k: int| 0 <= k < pairs.len() && pair_in(line, #[trigger] pairs[k])
}

/// How many lines hold both parts of one of the pairs (each line counted once).
pub open spec fn lines_with_pairs(lines: Seq<Seq<char>>, pairs: Seq<(Seq<char>, Seq<char>)>) -> nat
    decreases lines.len(),
{
    if lines.len() == 0 {
        0
    } else {
        lines_with_pairs(lines.drop_last(), pairs) + if some_pair_in(lines.last(), pairs) {
            1nat
        } else {
            0nat
        }
    }
}

/// The settings that `sestatus` must report, each as a label and its value.
pub open spec fn selinux_settings() -> Seq<(Seq<char>, Seq<char>)> {
    seq![
        ("SELinux status: "@, " enabled"@),
        ("Loaded policy name: "@, " fortified"@),
        ("Current mode: "@, " enforcing"@),
        ("Mode from config file: "@, " enforcing"@),
        ("Policy MLS status: "@, " enabled"@),
        ("Policy deny_unknown status: "@, " denied"@),
        ("Memory protection checking: "@, " actual (secure)"@),
    ]
}

/// The result of the SELinux check for what `sestatus` gave: passed when exactly as
/// many lines show an expected setting as there are settings.
pub open spec fn selinux_verdict(o: Option<(bool, Seq<u8>, Seq<u8>)>) -> (CheckStatus, Seq<char>) {
    match o {
        None => (CheckStatus::SKIP, "unable to verify SELinux settings"@),
        Some(out) => if !out.0 {
            (CheckStatus::SKIP, Seq::empty())
        } else if lines_with_pairs(output_lines(out.1), selinux_settings()) == 7 {
            (CheckStatus::PASS, Seq::empty())
        } else {
            (CheckStatus::FAIL, "Unable to find expected SELinux values"@)
        },
    }
}

fn line_has_pair(line: &Vec<char>, a: &str, b: &str) -> (r: bool)
    ensures
        r == pair_in(line@, (a@, b@)),
{
    let a = chars_of(a);
    let b = chars_of(b);
    contains(line, &a) && contains(line, &b)
}

fn line_has_some_pair(line: &Vec<char>, pairs: &[(&str, &str)]) -> (r: bool)
    ensures
        r == some_pair_in(line@, pairs@.map_values(|p: (&str, &str)| (p.0@, p.1@))),
{
    let ghost ps = pairs@.map_values(|p: (&str, &str)| (p.0@, p.1@));
    let mut k: usize = 0;
    while k < pairs.len()
        invariant
            k <= pairs@.len(),
            ps == pairs@.map_values(|p: (&str, &str)| (p.0@, p.1@)),
            forall|j: int| 0 <= j < k ==> !pair_in(line@, #[trigger] ps[j]),
        decreases pairs.len() - k,
    {
        let (a, b) = pairs[k];
        if line_has_pair(line, a, b) {
            assert(pair_in(line@, ps[k as int]));
            return true;
        }
        k = k + 1;
    }
    false
}

fn count_lines_with_pairs(lines: &Vec<Vec<char>>, pairs: &[(&str, &str)]) -> (r: usize)
    ensures
        r == lines_with_pairs(seqs_of(lines@), pairs@.map_values(|p: (&str, &str)| (p.0@, p.1@))),
{
    let ghost ps = pairs@.map_values(|p: (&str, &str)| (p.0@, p.1@));
    let mut matched: usize = 0;
    let mut i: usize = 0;
    while i < lines.len()
        invariant
            i <= lines@.len(),
            matched <= i,
            ps == pairs@.map_values(|p: (&str, &str)| (p.0@, p.1@)),
            matched == lines_with_pairs(seqs_of(lines@).take(i as int), ps),
        decreases lines.len() - i,
    {
        let ghost t = seqs_of(lines@).take(i + 1);
        assert(t.drop_last() =~= seqs_of(lines@).take(i as int));
        assert(t.last() == lines@[i as int]@);
        if line_has_some_pair(&lines[i], pairs) {
            matched = matched + 1;
        }
        i = i + 1;
    }
    assert(seqs_of(lines@).take(i as int) =~= seqs_of(lines@));
    matched
}

/// Some line holds the first pair and a later line holds the second.
pub open spec fn pairs_in_order(
    lines: Seq<Seq<char>>,
    first: (Seq<char>, Seq<char>),
    second: (Seq<char>, Seq<char>),
) -> bool {
    exists|i: int, j: int|
        0 <= i < j < lines.len() && #[trigger] pair_in(lines[i], first) && #[trigger] pair_in(
            lines[j],
            second,
        )
}

fn find_pairs_in_order(lines: &Vec<Vec<char>>, first: (&str, &str), second: (&str, &str)) -> (r:
    bool)
    ensures
        r == pairs_in_order(seqs_of(lines@), (first.0@, first.1@), (second.0@, second.1@)),
{
    let ghost ls = seqs_of(lines@);
    let ghost f = (first.0@, first.1@);
    let ghost g = (second.0@, second.1@);
    let mut first_found = false;
    let mut i: usize = 0;
    while i < lines.len()
        invariant
            i <= lines@.len(),
            ls == seqs_of(lines@),
            f == (first.0@, first.1@),
            g == (second.0@, second.1@),
            first_found == exists|k: int| 0 <= k < i && #[trigger] pair_in(ls[k], f),
            forall|k: int, m: int|
                0 <= k < m < i ==> !(#[trigger] pair_in(ls[k], f) && #[trigger] pair_in(ls[m], g)),
        decreases lines.len() - i,
    {
        assert(ls[i as int] == lines@[i as int]@);
        if !first_found && line_has_pair(&lines[i], first.0, first.1) {
            first_found = true;
        } else if first_found && line_has_pair(&lines[i], second.0, second.1) {
            let ghost k = choose|k: int| 0 <= k < i && #[trigger] pair_in(ls[k], f);
            assert(pair_in(ls[k], f) && pair_in(ls[i as int], g));
            return true;
        }
        i = i + 1;
    }
    false
}

/// The result of a loopback firewall check: `input` is what listing the INPUT chain
/// gave, and `output` what listing the OUTPUT chain gave. The INPUT chain must accept
/// loopback traffic and, on a later line, drop spoofed loopback traffic; the OUTPUT
/// chain must accept loopback traffic.
pub open spec fn loopback_verdict(
    input: Option<(bool, Seq<u8>, Seq<u8>)>,
    output: Option<(bool, Seq<u8>, Seq<u8>)>,
    first: (Seq<char>, Seq<char>),
    second: (Seq<char>, Seq<char>),
    output_rule: Seq<char>,
) -> (CheckStatus, Seq<char>) {
    let before = match input {
        None => (CheckStatus::SKIP, "unable to verify iptables INPUT settings"@),
        Some(_) => (CheckStatus::PASS, Seq::empty()),
    };
    match output_search(output, seq![output_rule]) {
        Some(false) => (CheckStatus::FAIL, "iptables OUTPUT rule not found"@),
        Some(true) => (CheckStatus::PASS, before.1),
        None => (before.0, "unable to parse iptables OUTPUT rules to verify loopback policy"@),
    }
}

/// The INPUT chain listing lacks the expected rules in the expected order.
pub open spec fn input_rules_missing(
    input: Option<(bool, Seq<u8>, Seq<u8>)>,
    first: (Seq<char>, Seq<char>),
    second: (Seq<char>, Seq<char>),
) -> bool {
    match input {
        None => false,
        Some(o) => !(o.0 && pairs_in_order(output_lines(o.1), first, second)),
    }
}

/// Checks the loopback rules of a firewall through `cmd` (`iptables` or `ip6tables`).
pub fn loopback_rules<S: SystemAccess>(
    sac: &S,
    cmd: &str,
    first: (&str, &str),
    second: (&str, &str),
    output_rule: &str,
) -> (r: CheckerResult)
    ensures
        exists|argv: Seq<Seq<char>>, i: Option<(bool, Seq<u8>, Seq<u8>)>|
            argv == seq!["-L"@, "INPUT"@, "-v"@, "-n"@] && #[trigger] sac.command_outcome(cmd@, argv, i) && if input_rules_missing(
                i,
                (first.0@, first.1@),
                (second.0@, second.1@),
            ) {
                r@ == (CheckStatus::FAIL, "Unable to find expected iptables INPUT values"@)
            } else {
                exists|argv2: Seq<Seq<char>>, o: Option<(bool, Seq<u8>, Seq<u8>)>|
                    argv2 == seq!["-L"@, "OUTPUT"@, "-v"@, "-n"@] && #[trigger] sac.command_outcome(cmd@, argv2, o)
                        && r@ == loopback_verdict(
                        i,
                        o,
                        (first.0@, first.1@),
                        (second.0@, second.1@),
                        output_rule@,
                    )
            },
{
    let input_args = ["-L", "INPUT", "-v", "-n"];
    assert(strs_view(input_args@) =~= seq!["-L"@, "INPUT"@, "-v"@, "-n"@]);
    let listed = sac.command_output(cmd, &input_args);
    let mut result = match listed {
        Ok(output) => {
            let found = if output.success {
                let lines = read_output_lines(output.stdout.as_slice());
                find_pairs_in_order(&lines, first, second)
            } else {
                false
            };
            assert(sac.command_outcome(cmd@, strs_view(input_args@), Some(output@)));
            if found {
                passed()
            } else {
                return outcome(CheckStatus::FAIL, "Unable to find expected iptables INPUT values");
            }
        },
        Err(_) => {
            assert(sac.command_outcome(cmd@, strs_view(input_args@), None));
            outcome(CheckStatus::SKIP, "unable to verify iptables INPUT settings")
        },
    };
    let output_args = ["-L", "OUTPUT", "-v", "-n"];
    assert(strs_view(output_args@) =~= seq!["-L"@, "OUTPUT"@, "-v"@, "-n"@]);
    match look_for_string_in_output(sac, cmd, &output_args, output_rule) {
        Some(found) => {
            if !found {
                result = outcome(CheckStatus::FAIL, "iptables OUTPUT rule not found");
            } else {
                result.status = CheckStatus::PASS;
            }
        },
        None => {
            result.error = "unable to parse iptables OUTPUT rules to verify loopback policy".to_owned();
        },
    }
    result
}

/// Checks that udf filesystems can be neither mounted now nor loaded later.
pub struct BR01010101Checker {}

impl Checker for BR01010101Checker {
    fn execute<S: SystemAccess>(&self, sac: &S) -> (r: CheckerResult)
        ensures
            exists|m: Option<Seq<u8>>|
                #[trigger] sac.open_outcome(PROC_MODULES_FILE@, m) && if word_search(m, "udf"@)
                    == Some(false) {
                    exists|argv: Seq<Seq<char>>, o: Option<(bool, Seq<u8>, Seq<u8>)>|
                        argv == seq!["-n"@, "-v"@, "udf"@] && #[trigger] sac.command_outcome(
                            MODPROBE_CMD@,
                            argv,
                            o,
                        ) && r@ == module_disabled_verdict(
                            Some(false),
                            o,
                            "udf is currently loaded"@,
                            "unable to parse modprobe output to check if udf is enabled"@,
                            "unable to parse modprobe output to check if udf is enabled"@,
                            "modprobe for udf is not disabled"@,
                        )
                } else {
                    r@ == module_disabled_verdict(
                        word_search(m, "udf"@),
                        None,
                        "udf is currently loaded"@,
                        "unable to parse modprobe output to check if udf is enabled"@,
                        "unable to parse modprobe output to check if udf is enabled"@,
                        "modprobe for udf is not disabled"@,
                    )
                },
    {
        module_disabled(
            sac,
            "udf",
            "udf is currently loaded",
            "unable to parse modprobe output to check if udf is enabled",
            "unable to parse modprobe output to check if udf is enabled",
            "modprobe for udf is not disabled",
        )
    }

    fn metadata(&self) -> (r: CheckerMetadata)
        ensures
            r.describes(
                "Ensure mounting of udf filesystems is disabled"@,
                "1.1.1.1"@,
                2,
                "br01010101"@,
                Mode::Automatic,
            ),
    {
        CheckerMetadata {
            title: "Ensure mounting of udf filesystems is disabled".to_owned(),
            id: "1.1.1.1".to_owned(),
            level: 2,
            name: "br01010101".to_owned(),
            mode: Mode::Automatic,
        }
    }
}

/// Checks that the kernel command line enforces dm-verity on the root filesystem.
pub struct BR01030100Checker {}

impl Checker for BR01030100Checker {
    fn execute<S: SystemAccess>(&self, sac: &S) -> (r: CheckerResult)
        ensures
            exists|c: Option<Seq<u8>>|
                #[trigger] sac.open_outcome(PROC_CMDLINE_FILE@, c) && r@ == verdict(
                    strings_search(c, seq!["dm-mod.create=root,,,ro,0"@, "root=/dev/dm-0"@, "restart_on_corruption"@]),
                    "unable to verify cmdline includes dm-verity settings"@,
                    "unable to verify dm-verity enforcement, settings not found"@,
                ),
    {
        let wanted = ["dm-mod.create=root,,,ro,0", "root=/dev/dm-0", "restart_on_corruption"];
        assert(strs_view(wanted@) =~= seq!["dm-mod.create=root,,,ro,0"@, "root=/dev/dm-0"@, "restart_on_corruption"@]);
        check_file_contains(sac, PROC_CMDLINE_FILE, &wanted, "unable to verify cmdline includes dm-verity settings", "unable to verify dm-verity enforcement, settings not found")
    }

    fn metadata(&self) -> (r: CheckerMetadata)
        ensures
            r.describes(
                "Ensure dm-verity is configured"@,
                "1.3.1"@,
                1,
                "br01030100"@,
                Mode::Automatic,
            ),
    {
        CheckerMetadata {
            title: "Ensure dm-verity is configured".to_owned(),
            id: "1.3.1".to_owned(),
            level: 1,
            name: "br01030100".to_owned(),
            mode: Mode::Automatic,
        }
    }
}

/// Checks that setuid programs do not dump core.
pub struct BR01040100Checker {}

impl Checker for BR01040100Checker {
    fn execute<S: SystemAccess>(&self, sac: &S) -> (r: CheckerResult)
        ensures
            exists|argv: Seq<Seq<char>>, o: Option<(bool, Seq<u8>, Seq<u8>)>|
                argv == seq!["fs.suid_dumpable"@] && #[trigger] sac.command_outcome(SYSCTL_CMD@, argv, o) && r@ == verdict(
                    output_search(o, seq!["fs.suid_dumpable = 0"@]),
                    "unable to verify fs.suid_dumpable setting"@,
                    "setuid core dumps are not disabled"@,
                ),
    {
        let args = ["fs.suid_dumpable"];
        let wanted = ["fs.suid_dumpable = 0"];
        assert(strs_view(args@) =~= seq!["fs.suid_dumpable"@]);
        assert(strs_view(wanted@) =~= seq!["fs.suid_dumpable = 0"@]);
        check_output_contains(
            sac,
            SYSCTL_CMD,
            &args,
            &wanted,
            "unable to verify fs.suid_dumpable setting",
            "setuid core dumps are not disabled",
        )
    }

    fn metadata(&self) -> (r: CheckerMetadata)
        ensures
            r.describes(
                "Ensure setuid programs do not create core dumps"@,
                "1.4.1"@,
                1,
                "br01040100"@,
                Mode::Automatic,
            ),
    {
        CheckerMetadata {
            title: "Ensure setuid programs do not create core dumps".to_owned(),
            id: "1.4.1".to_owned(),
            level: 1,
            name: "br01040100".to_owned(),
            mode: Mode::Automatic,
        }
    }
}

/// Checks that address space layout randomization is enabled.
pub struct BR01040200Checker {}

impl Checker for BR01040200Checker {
    fn execute<S: SystemAccess>(&self, sac: &S) -> (r: CheckerResult)
        ensures
            exists|argv: Seq<Seq<char>>, o: Option<(bool, Seq<u8>, Seq<u8>)>|
                argv == seq!["kernel.randomize_va_space"@] && #[trigger] sac.command_outcome(SYSCTL_CMD@, argv, o) && r@ == verdict(
                    output_search(o, seq!["kernel.randomize_va_space = 2"@]),
                    "unable to verify kernel.randomize_va_space setting"@,
                    "Address space layout randomization is not enabled"@,
                ),
    {
        let args = ["kernel.randomize_va_space"];
        let wanted = ["kernel.randomize_va_space = 2"];
        assert(strs_view(args@) =~= seq!["kernel.randomize_va_space"@]);
        assert(strs_view(wanted@) =~= seq!["kernel.randomize_va_space = 2"@]);
        check_output_contains(
            sac,
            SYSCTL_CMD,
            &args,
            &wanted,
            "unable to verify kernel.randomize_va_space setting",
            "Address space layout randomization is not enabled",
        )
    }

    fn metadata(&self) -> (r: CheckerMetadata)
        ensures
            r.describes(
                "Ensure address space layout randomization (ASLR) is enabled"@,
                "1.4.2"@,
                1,
                "br01040200"@,
                Mode::Automatic,
            ),
    {
        CheckerMetadata {
            title: "Ensure address space layout randomization (ASLR) is enabled".to_owned(),
            id: "1.4.2".to_owned(),
            level: 1,
            name: "br01040200".to_owned(),
            mode: Mode::Automatic,
        }
    }
}

/// Checks that unprivileged eBPF is disabled.
pub struct BR01040300Checker {}

impl Checker for BR01040300Checker {
    fn execute<S: SystemAccess>(&self, sac: &S) -> (r: CheckerResult)
        ensures
            exists|argv: Seq<Seq<char>>, o: Option<(bool, Seq<u8>, Seq<u8>)>|
                argv == seq!["kernel.unprivileged_bpf_disabled"@] && #[trigger] sac.command_outcome(SYSCTL_CMD@, argv, o) && r@ == verdict(
                    output_search(o, seq!["kernel.unprivileged_bpf_disabled = 1"@]),
                    "unable to verify kernel.unprivileged_bpf_disabled setting"@,
                    "unprivileged eBPF is not disabled"@,
                ),
    {
        let args = ["kernel.unprivileged_bpf_disabled"];
        let wanted = ["kernel.unprivileged_bpf_disabled = 1"];
        assert(strs_view(args@) =~= seq!["kernel.unprivileged_bpf_disabled"@]);
        assert(strs_view(wanted@) =~= seq!["kernel.unprivileged_bpf_disabled = 1"@]);
        check_output_contains(
            sac,
            SYSCTL_CMD,
            &args,
            &wanted,
            "unable to verify kernel.unprivileged_bpf_disabled setting",
            "unprivileged eBPF is not disabled",
        )
    }

    fn metadata(&self) -> (r: CheckerMetadata)
        ensures
            r.describes(
                "Ensure unprivileged eBPF is disabled"@,
                "1.4.3"@,
                1,
                "br01040300"@,
                Mode::Automatic,
            ),
    {
        CheckerMetadata {
            title: "Ensure unprivileged eBPF is disabled".to_owned(),
            id: "1.4.3".to_owned(),
            level: 1,
            name: "br01040300".to_owned(),
            mode: Mode::Automatic,
        }
    }
}

/// Checks that user namespaces are disabled.
pub struct BR01040400Checker {}

impl Checker for BR01040400Checker {
    fn execute<S: SystemAccess>(&self, sac: &S) -> (r: CheckerResult)
        ensures
            exists|argv: Seq<Seq<char>>, o: Option<(bool, Seq<u8>, Seq<u8>)>|
                argv == seq!["user.max_user_namespaces"@] && #[trigger] sac.command_outcome(SYSCTL_CMD@, argv, o) && r@ == verdict(
                    output_search(o, seq!["user.max_user_namespaces = 0"@]),
                    "unable to verify user.max_user_namespaces setting"@,
                    "user namespaces are not disabled"@,
                ),
    {
        let args = ["user.max_user_namespaces"];
        let wanted = ["user.max_user_namespaces = 0"];
        assert(strs_view(args@) =~= seq!["user.max_user_namespaces"@]);
        assert(strs_view(wanted@) =~= seq!["user.max_user_namespaces = 0"@]);
        check_output_contains(
            sac,
            SYSCTL_CMD,
            &args,
            &wanted,
            "unable to verify user.max_user_namespaces setting",
            "user namespaces are not disabled",
        )
    }

    fn metadata(&self) -> (r: CheckerMetadata)
        ensures
            r.describes(
                "Ensure user namespaces are disabled"@,
                "1.4.4"@,
                2,
                "br01040400"@,
                Mode::Automatic,
            ),
    {
        CheckerMetadata {
            title: "Ensure user namespaces are disabled".to_owned(),
            id: "1.4.4".to_owned(),
            level: 2,
            name: "br01040400".to_owned(),
            mode: Mode::Automatic,
        }
    }
}

/// Checks that SELinux is enabled and enforcing the fortified policy.
pub struct BR01050100Checker {}

impl Checker for BR01050100Checker {
    fn execute<S: SystemAccess>(&self, sac: &S) -> (r: CheckerResult)
        ensures
            exists|o: Option<(bool, Seq<u8>, Seq<u8>)>|
                #[trigger] sac.command_outcome(SESTATUS_CMD@, Seq::<Seq<char>>::empty(), o) && r@
                    == selinux_verdict(o),
    {
        let to_match = [
            ("SELinux status: ", " enabled"),
            ("Loaded policy name: ", " fortified"),
            ("Current mode: ", " enforcing"),
            ("Mode from config file: ", " enforcing"),
            ("Policy MLS status: ", " enabled"),
            ("Policy deny_unknown status: ", " denied"),
            ("Memory protection checking: ", " actual (secure)"),
        ];
        assert(to_match@.map_values(|p: (&str, &str)| (p.0@, p.1@)) =~= selinux_settings());
        let no_args: [&str; 0] = [];
        assert(strs_view(no_args@) =~= Seq::<Seq<char>>::empty());
        let mut result = CheckerResult::default();
        let ran = sac.command_output(SESTATUS_CMD, &no_args);
        match ran {
            Ok(output) => {
                assert(sac.command_outcome(SESTATUS_CMD@, Seq::<Seq<char>>::empty(), Some(output@)));
                if output.success {
                    let lines = read_output_lines(output.stdout.as_slice());
                    let matched = count_lines_with_pairs(&lines, &to_match);
                    if to_match.len() == matched {
                        result = passed();
                    } else {
                        result = outcome(CheckStatus::FAIL, "Unable to find expected SELinux values");
                    }
                }
            },
            Err(_) => {
                assert(sac.command_outcome(SESTATUS_CMD@, Seq::<Seq<char>>::empty(), None));
                result = outcome(CheckStatus::SKIP, "unable to verify SELinux settings");
            },
        }
        result
    }

    fn metadata(&self) -> (r: CheckerMetadata)
        ensures
            r.describes(
                "Ensure SELinux is configured"@,
                "1.5.1"@,
                1,
                "br01050100"@,
                Mode::Automatic,
            ),
    {
        CheckerMetadata {
            title: "Ensure SELinux is configured".to_owned(),
            id: "1.5.1".to_owned(),
            level: 1,
            name: "br01050100".to_owned(),
            mode: Mode::Automatic,
        }
    }
}

/// Checks that kernel lockdown runs in integrity mode.
pub struct BR01050200Checker {}

impl Checker for BR01050200Checker {
    fn execute<S: SystemAccess>(&self, sac: &S) -> (r: CheckerResult)
        ensures
            exists|c: Option<Seq<u8>>|
                #[trigger] sac.open_outcome(LOCKDOWN_FILE@, c) && r@ == verdict(
                    strings_search(c, seq!["[integrity]"@]),
                    "unable to verify lockdown mode"@,
                    "lockdown integrity mode is not enabled"@,
                ),
    {
        let wanted = ["[integrity]"];
        assert(strs_view(wanted@) =~= seq!["[integrity]"@]);
        check_file_contains(sac, LOCKDOWN_FILE, &wanted, "unable to verify lockdown mode", "lockdown integrity mode is not enabled")
    }

    fn metadata(&self) -> (r: CheckerMetadata)
        ensures
            r.describes(
                "Ensure Lockdown is configured"@,
                "1.5.2"@,
                2,
                "br01050200"@,
                Mode::Automatic,
            ),
    {
        CheckerMetadata {
            title: "Ensure Lockdown is configured".to_owned(),
            id: "1.5.2".to_owned(),
            level: 2,
            name: "br01050200".to_owned(),
            mode: Mode::Automatic,
        }
    }
}

/// Checks that chrony has time servers and that its service is active.
pub struct BR02010101Checker {}

impl Checker for BR02010101Checker {
    fn execute<S: SystemAccess>(&self, sac: &S) -> (r: CheckerResult)
        ensures
            exists|c: Option<Seq<u8>>|
                #[trigger] sac.open_outcome(CHRONY_CONF_FILE@, c) && if strings_search(
                    c,
                    seq!["pool"@],
                ) == Some(false) {
                    r@ == (CheckStatus::FAIL, "no ntp servers are configured"@)
                } else {
                    exists|argv: Seq<Seq<char>>, o: Option<(bool, Seq<u8>, Seq<u8>)>|
                        argv == seq!["show"@, "--property"@, "ActiveState"@, "chronyd"@]
                            && #[trigger] sac.command_outcome(SYSTEMCTL_CMD@, argv, o) && r@ == verdict(
                            output_search(o, seq!["ActiveState=active"@]),
                            "unable to verify chronyd service enabled"@,
                            "chronyd NTP service is not enabled"@,
                        )
                },
    {
        let wanted = ["pool"];
        assert(strs_view(wanted@) =~= seq!["pool"@]);
        let result = check_file_contains(
            sac,
            CHRONY_CONF_FILE,
            &wanted,
            "unable to verify time-servers setting",
            "no ntp servers are configured",
        );
        if result.status == CheckStatus::FAIL {
            return result;
        }
        let args = ["show", "--property", "ActiveState", "chronyd"];
        let wanted = ["ActiveState=active"];
        assert(strs_view(args@) =~= seq!["show"@, "--property"@, "ActiveState"@, "chronyd"@]);
        assert(strs_view(wanted@) =~= seq!["ActiveState=active"@]);
        check_output_contains(
            sac,
            SYSTEMCTL_CMD,
            &args,
            &wanted,
            "unable to verify chronyd service enabled",
            "chronyd NTP service is not enabled",
        )
    }

    fn metadata(&self) -> (r: CheckerMetadata)
        ensures
            r.describes(
                "Ensure chrony is configured"@,
                "2.1.1.1"@,
                1,
                "br02010101"@,
                Mode::Automatic,
            ),
    {
        CheckerMetadata {
            title: "Ensure chrony is configured".to_owned(),
            id: "2.1.1.1".to_owned(),
            level: 1,
            name: "br02010101".to_owned(),
            mode: Mode::Automatic,
        }
    }
}

/// Checks that sending packet redirects is disabled.
pub struct BR03010100Checker {}

impl Checker for BR03010100Checker {
    fn execute<S: SystemAccess>(&self, sac: &S) -> (r: CheckerResult)
        ensures
            exists|argv: Seq<Seq<char>>, o: Option<(bool, Seq<u8>, Seq<u8>)>|
                argv == seq!["net.ipv4.conf.all.send_redirects"@, "net.ipv4.conf.default.send_redirects"@] && #[trigger] sac.command_outcome(SYSCTL_CMD@, argv, o) && r@ == verdict(
                    output_search(o, seq!["net.ipv4.conf.all.send_redirects = 0"@, "net.ipv4.conf.default.send_redirects = 0"@]),
                    "unable to verify redirect settings"@,
                    "redirects not disabled"@,
                ),
    {
        let args = ["net.ipv4.conf.all.send_redirects", "net.ipv4.conf.default.send_redirects"];
        let wanted = ["net.ipv4.conf.all.send_redirects = 0", "net.ipv4.conf.default.send_redirects = 0"];
        assert(strs_view(args@) =~= seq!["net.ipv4.conf.all.send_redirects"@, "net.ipv4.conf.default.send_redirects"@]);
        assert(strs_view(wanted@) =~= seq!["net.ipv4.conf.all.send_redirects = 0"@, "net.ipv4.conf.default.send_redirects = 0"@]);
        check_output_contains(
            sac,
            SYSCTL_CMD,
            &args,
            &wanted,
            "unable to verify redirect settings",
            "redirects not disabled",
        )
    }

    fn metadata(&self) -> (r: CheckerMetadata)
        ensures
            r.describes(
                "Ensure packet redirect sending is disabled"@,
                "3.1.1"@,
                2,
                "br03010100"@,
                Mode::Automatic,
            ),
    {
        CheckerMetadata {
            title: "Ensure packet redirect sending is disabled".to_owned(),
            id: "3.1.1".to_owned(),
            level: 2,
            name: "br03010100".to_owned(),
            mode: Mode::Automatic,
        }
    }
}

/// Checks that source routed packets are refused.
pub struct BR03020100Checker {}

impl Checker for BR03020100Checker {
    fn execute<S: SystemAccess>(&self, sac: &S) -> (r: CheckerResult)
        ensures
            exists|argv: Seq<Seq<char>>, o: Option<(bool, Seq<u8>, Seq<u8>)>|
                argv == seq!["net.ipv4.conf.all.accept_source_route"@, "net.ipv4.conf.default.accept_source_route"@, "net.ipv6.conf.all.accept_source_route"@, "net.ipv6.conf.default.accept_source_route"@] && #[trigger] sac.command_outcome(SYSCTL_CMD@, argv, o) && r@ == verdict(
                    output_search(o, seq!["net.ipv4.conf.all.accept_source_route = 0"@, "net.ipv4.conf.default.accept_source_route = 0"@, "net.ipv6.conf.all.accept_source_route = 0"@, "net.ipv6.conf.default.accept_source_route = 0"@]),
                    "unable to verify source route settings"@,
                    "accept source route not disabled"@,
                ),
    {
        let args = ["net.ipv4.conf.all.accept_source_route", "net.ipv4.conf.default.accept_source_route", "net.ipv6.conf.all.accept_source_route", "net.ipv6.conf.default.accept_source_route"];
        let wanted = ["net.ipv4.conf.all.accept_source_route = 0", "net.ipv4.conf.default.accept_source_route = 0", "net.ipv6.conf.all.accept_source_route = 0", "net.ipv6.conf.default.accept_source_route = 0"];
        assert(strs_view(args@) =~= seq!["net.ipv4.conf.all.accept_source_route"@, "net.ipv4.conf.default.accept_source_route"@, "net.ipv6.conf.all.accept_source_route"@, "net.ipv6.conf.default.accept_source_route"@]);
        assert(strs_view(wanted@) =~= seq!["net.ipv4.conf.all.accept_source_route = 0"@, "net.ipv4.conf.default.accept_source_route = 0"@, "net.ipv6.conf.all.accept_source_route = 0"@, "net.ipv6.conf.default.accept_source_route = 0"@]);
        check_output_contains(
            sac,
            SYSCTL_CMD,
            &args,
            &wanted,
            "unable to verify source route settings",
            "accept source route not disabled",
        )
    }

    fn metadata(&self) -> (r: CheckerMetadata)
        ensures
            r.describes(
                "Ensure source routed packets are not accepted"@,
                "3.2.1"@,
                2,
                "br03020100"@,
                Mode::Automatic,
            ),
    {
        CheckerMetadata {
            title: "Ensure source routed packets are not accepted".to_owned(),
            id: "3.2.1".to_owned(),
            level: 2,
            name: "br03020100".to_owned(),
            mode: Mode::Automatic,
        }
    }
}

/// Checks that ICMP redirects are refused.
pub struct BR03020200Checker {}

impl Checker for BR03020200Checker {
    fn execute<S: SystemAccess>(&self, sac: &S) -> (r: CheckerResult)
        ensures
            exists|argv: Seq<Seq<char>>, o: Option<(bool, Seq<u8>, Seq<u8>)>|
                argv == seq!["net.ipv4.conf.all.accept_redirects"@, "net.ipv4.conf.default.accept_redirects"@, "net.ipv6.conf.all.accept_redirects"@, "net.ipv6.conf.default.accept_redirects"@] && #[trigger] sac.command_outcome(SYSCTL_CMD@, argv, o) && r@ == verdict(
                    output_search(o, seq!["net.ipv4.conf.all.accept_redirects = 0"@, "net.ipv4.conf.default.accept_redirects = 0"@, "net.ipv6.conf.all.accept_redirects = 0"@, "net.ipv6.conf.default.accept_redirects = 0"@]),
                    "unable to verify redirect settings"@,
                    "accept redirects not disabled"@,
                ),
    {
        let args = ["net.ipv4.conf.all.accept_redirects", "net.ipv4.conf.default.accept_redirects", "net.ipv6.conf.all.accept_redirects", "net.ipv6.conf.default.accept_redirects"];
        let wanted = ["net.ipv4.conf.all.accept_redirects = 0", "net.ipv4.conf.default.accept_redirects = 0", "net.ipv6.conf.all.accept_redirects = 0", "net.ipv6.conf.default.accept_redirects = 0"];
        assert(strs_view(args@) =~= seq!["net.ipv4.conf.all.accept_redirects"@, "net.ipv4.conf.default.accept_redirects"@, "net.ipv6.conf.all.accept_redirects"@, "net.ipv6.conf.default.accept_redirects"@]);
        assert(strs_view(wanted@) =~= seq!["net.ipv4.conf.all.accept_redirects = 0"@, "net.ipv4.conf.default.accept_redirects = 0"@, "net.ipv6.conf.all.accept_redirects = 0"@, "net.ipv6.conf.default.accept_redirects = 0"@]);
        check_output_contains(
            sac,
            SYSCTL_CMD,
            &args,
            &wanted,
            "unable to verify redirect settings",
            "accept redirects not disabled",
        )
    }

    fn metadata(&self) -> (r: CheckerMetadata)
        ensures
            r.describes(
                "Ensure ICMP redirects are not accepted"@,
                "3.2.2"@,
                2,
                "br03020200"@,
                Mode::Automatic,
            ),
    {
        CheckerMetadata {
            title: "Ensure ICMP redirects are not accepted".to_owned(),
            id: "3.2.2".to_owned(),
            level: 2,
            name: "br03020200".to_owned(),
            mode: Mode::Automatic,
        }
    }
}

/// Checks that secure ICMP redirects are refused.
pub struct BR03020300Checker {}

impl Checker for BR03020300Checker {
    fn execute<S: SystemAccess>(&self, sac: &S) -> (r: CheckerResult)
        ensures
            exists|argv: Seq<Seq<char>>, o: Option<(bool, Seq<u8>, Seq<u8>)>|
                argv == seq!["net.ipv4.conf.all.secure_redirects"@, "net.ipv4.conf.default.secure_redirects"@] && #[trigger] sac.command_outcome(SYSCTL_CMD@, argv, o) && r@ == verdict(
                    output_search(o, seq!["net.ipv4.conf.all.secure_redirects = 0"@, "net.ipv4.conf.default.secure_redirects = 0"@]),
                    "unable to verify secure redirect settings"@,
                    "secure redirects not disabled"@,
                ),
    {
        let args = ["net.ipv4.conf.all.secure_redirects", "net.ipv4.conf.default.secure_redirects"];
        let wanted = ["net.ipv4.conf.all.secure_redirects = 0", "net.ipv4.conf.default.secure_redirects = 0"];
        assert(strs_view(args@) =~= seq!["net.ipv4.conf.all.secure_redirects"@, "net.ipv4.conf.default.secure_redirects"@]);
        assert(strs_view(wanted@) =~= seq!["net.ipv4.conf.all.secure_redirects = 0"@, "net.ipv4.conf.default.secure_redirects = 0"@]);
        check_output_contains(
            sac,
            SYSCTL_CMD,
            &args,
            &wanted,
            "unable to verify secure redirect settings",
            "secure redirects not disabled",
        )
    }

    fn metadata(&self) -> (r: CheckerMetadata)
        ensures
            r.describes(
                "Ensure secure ICMP redirects are not accepted"@,
                "3.2.3"@,
                2,
                "br03020300"@,
                Mode::Automatic,
            ),
    {
        CheckerMetadata {
            title: "Ensure secure ICMP redirects are not accepted".to_owned(),
            id: "3.2.3".to_owned(),
            level: 2,
            name: "br03020300".to_owned(),
            mode: Mode::Automatic,
        }
    }
}

/// Checks that suspicious (martian) packets are logged.
pub struct BR03020400Checker {}

impl Checker for BR03020400Checker {
    fn execute<S: SystemAccess>(&self, sac: &S) -> (r: CheckerResult)
        ensures
            exists|argv: Seq<Seq<char>>, o: Option<(bool, Seq<u8>, Seq<u8>)>|
                argv == seq!["net.ipv4.conf.all.log_martians"@, "net.ipv4.conf.default.log_martians"@] && #[trigger] sac.command_outcome(SYSCTL_CMD@, argv, o) && r@ == verdict(
                    output_search(o, seq!["net.ipv4.conf.all.log_martians = 1"@, "net.ipv4.conf.default.log_martians = 1"@]),
                    "unable to verify martian packet logging settings"@,
                    "martian packet logging not enabled"@,
                ),
    {
        let args = ["net.ipv4.conf.all.log_martians", "net.ipv4.conf.default.log_martians"];
        let wanted = ["net.ipv4.conf.all.log_martians = 1", "net.ipv4.conf.default.log_martians = 1"];
        assert(strs_view(args@) =~= seq!["net.ipv4.conf.all.log_martians"@, "net.ipv4.conf.default.log_martians"@]);
        assert(strs_view(wanted@) =~= seq!["net.ipv4.conf.all.log_martians = 1"@, "net.ipv4.conf.default.log_martians = 1"@]);
        check_output_contains(
            sac,
            SYSCTL_CMD,
            &args,
            &wanted,
            "unable to verify martian packet logging settings",
            "martian packet logging not enabled",
        )
    }

    fn metadata(&self) -> (r: CheckerMetadata)
        ensures
            r.describes(
                "Ensure suspicious packets are logged"@,
                "3.2.4"@,
                2,
                "br03020400"@,
                Mode::Automatic,
            ),
    {
        CheckerMetadata {
            title: "Ensure suspicious packets are logged".to_owned(),
            id: "3.2.4".to_owned(),
            level: 2,
            name: "br03020400".to_owned(),
            mode: Mode::Automatic,
        }
    }
}

/// Checks that broadcast ICMP requests are ignored.
pub struct BR03020500Checker {}

impl Checker for BR03020500Checker {
    fn execute<S: SystemAccess>(&self, sac: &S) -> (r: CheckerResult)
        ensures
            exists|argv: Seq<Seq<char>>, o: Option<(bool, Seq<u8>, Seq<u8>)>|
                argv == seq!["net.ipv4.icmp_echo_ignore_broadcasts"@] && #[trigger] sac.command_outcome(SYSCTL_CMD@, argv, o) && r@ == verdict(
                    output_search(o, seq!["net.ipv4.icmp_echo_ignore_broadcasts = 1"@]),
                    "unable to verify broadcast ICMP requests setting"@,
                    "broadcast ICMP requests not ignored"@,
                ),
    {
        let args = ["net.ipv4.icmp_echo_ignore_broadcasts"];
        let wanted = ["net.ipv4.icmp_echo_ignore_broadcasts = 1"];
        assert(strs_view(args@) =~= seq!["net.ipv4.icmp_echo_ignore_broadcasts"@]);
        assert(strs_view(wanted@) =~= seq!["net.ipv4.icmp_echo_ignore_broadcasts = 1"@]);
        check_output_contains(
            sac,
            SYSCTL_CMD,
            &args,
            &wanted,
            "unable to verify broadcast ICMP requests setting",
            "broadcast ICMP requests not ignored",
        )
    }

    fn metadata(&self) -> (r: CheckerMetadata)
        ensures
            r.describes(
                "Ensure broadcast ICMP requests are ignored"@,
                "3.2.5"@,
                1,
                "br03020500"@,
                Mode::Automatic,
            ),
    {
        CheckerMetadata {
            title: "Ensure broadcast ICMP requests are ignored".to_owned(),
            id: "3.2.5".to_owned(),
            level: 1,
            name: "br03020500".to_owned(),
            mode: Mode::Automatic,
        }
    }
}

/// Checks that bogus ICMP error responses are ignored.
pub struct BR03020600Checker {}

impl Checker for BR03020600Checker {
    fn execute<S: SystemAccess>(&self, sac: &S) -> (r: CheckerResult)
        ensures
            exists|argv: Seq<Seq<char>>, o: Option<(bool, Seq<u8>, Seq<u8>)>|
                argv == seq!["net.ipv4.icmp_ignore_bogus_error_responses"@] && #[trigger] sac.command_outcome(SYSCTL_CMD@, argv, o) && r@ == verdict(
                    output_search(o, seq!["net.ipv4.icmp_ignore_bogus_error_responses = 1"@]),
                    "unable to verify bogus ICMP bogus requests setting"@,
                    "ignore bogus ICMP requests not ignored"@,
                ),
    {
        let args = ["net.ipv4.icmp_ignore_bogus_error_responses"];
        let wanted = ["net.ipv4.icmp_ignore_bogus_error_responses = 1"];
        assert(strs_view(args@) =~= seq!["net.ipv4.icmp_ignore_bogus_error_responses"@]);
        assert(strs_view(wanted@) =~= seq!["net.ipv4.icmp_ignore_bogus_error_responses = 1"@]);
        check_output_contains(
            sac,
            SYSCTL_CMD,
            &args,
            &wanted,
            "unable to verify bogus ICMP bogus requests setting",
            "ignore bogus ICMP requests not ignored",
        )
    }

    fn metadata(&self) -> (r: CheckerMetadata)
        ensures
            r.describes(
                "Ensure bogus ICMP responses are ignored"@,
                "3.2.6"@,
                1,
                "br03020600"@,
                Mode::Automatic,
            ),
    {
        CheckerMetadata {
            title: "Ensure bogus ICMP responses are ignored".to_owned(),
            id: "3.2.6".to_owned(),
            level: 1,
            name: "br03020600".to_owned(),
            mode: Mode::Automatic,
        }
    }
}

/// Checks that TCP SYN cookies are enabled.
pub struct BR03020700Checker {}

impl Checker for BR03020700Checker {
    fn execute<S: SystemAccess>(&self, sac: &S) -> (r: CheckerResult)
        ensures
            exists|argv: Seq<Seq<char>>, o: Option<(bool, Seq<u8>, Seq<u8>)>|
                argv == seq!["net.ipv4.tcp_syncookies"@] && #[trigger] sac.command_outcome(SYSCTL_CMD@, argv, o) && r@ == verdict(
                    output_search(o, seq!["net.ipv4.tcp_syncookies = 1"@]),
                    "unable to verify SYN flood cookie protection setting"@,
                    "SYN flood cookie protection not enabled"@,
                ),
    {
        let args = ["net.ipv4.tcp_syncookies"];
        let wanted = ["net.ipv4.tcp_syncookies = 1"];
        assert(strs_view(args@) =~= seq!["net.ipv4.tcp_syncookies"@]);
        assert(strs_view(wanted@) =~= seq!["net.ipv4.tcp_syncookies = 1"@]);
        check_output_contains(
            sac,
            SYSCTL_CMD,
            &args,
            &wanted,
            "unable to verify SYN flood cookie protection setting",
            "SYN flood cookie protection not enabled",
        )
    }

    fn metadata(&self) -> (r: CheckerMetadata)
        ensures
            r.describes(
                "Ensure TCP SYN Cookies is enabled"@,
                "3.2.7"@,
                1,
                "br03020700"@,
                Mode::Automatic,
            ),
    {
        CheckerMetadata {
            title: "Ensure TCP SYN Cookies is enabled".to_owned(),
            id: "3.2.7".to_owned(),
            level: 1,
            name: "br03020700".to_owned(),
            mode: Mode::Automatic,
        }
    }
}

/// Checks that SCTP can be neither used now nor loaded later.
pub struct BR03030100Checker {}

impl Checker for BR03030100Checker {
    fn execute<S: SystemAccess>(&self, sac: &S) -> (r: CheckerResult)
        ensures
            exists|m: Option<Seq<u8>>|
                #[trigger] sac.open_outcome(PROC_MODULES_FILE@, m) && if word_search(m, "sctp"@)
                    == Some(false) {
                    exists|argv: Seq<Seq<char>>, o: Option<(bool, Seq<u8>, Seq<u8>)>|
                        argv == seq!["-n"@, "-v"@, "sctp"@] && #[trigger] sac.command_outcome(
                            MODPROBE_CMD@,
                            argv,
                            o,
                        ) && r@ == module_disabled_verdict(
                            Some(false),
                            o,
                            "sctp is currently loaded"@,
                            "unable to parse modules to check for sctp"@,
                            "unable to parse modprobe output to check if sctp is enabled"@,
                            "modprobe for sctp is not disabled"@,
                        )
                } else {
                    r@ == module_disabled_verdict(
                        word_search(m, "sctp"@),
                        None,
                        "sctp is currently loaded"@,
                        "unable to parse modules to check for sctp"@,
                        "unable to parse modprobe output to check if sctp is enabled"@,
                        "modprobe for sctp is not disabled"@,
                    )
                },
    {
        module_disabled(
            sac,
            "sctp",
            "sctp is currently loaded",
            "unable to parse modules to check for sctp",
            "unable to parse modprobe output to check if sctp is enabled",
            "modprobe for sctp is not disabled",
        )
    }

    fn metadata(&self) -> (r: CheckerMetadata)
        ensures
            r.describes(
                "Ensure SCTP is disabled"@,
                "3.3.1"@,
                2,
                "br03030100"@,
                Mode::Automatic,
            ),
    {
        CheckerMetadata {
            title: "Ensure SCTP is disabled".to_owned(),
            id: "3.3.1".to_owned(),
            level: 2,
            name: "br03030100".to_owned(),
            mode: Mode::Automatic,
        }
    }
}

/// Checks that every IPv4 chain drops traffic by default.
pub struct BR03040101Checker {}

impl Checker for BR03040101Checker {
    fn execute<S: SystemAccess>(&self, sac: &S) -> (r: CheckerResult)
        ensures
            exists|argv: Seq<Seq<char>>, o: Option<(bool, Seq<u8>, Seq<u8>)>|
                argv == seq!["-L"@] && #[trigger] sac.command_outcome(IPTABLES_CMD@, argv, o) && r@ == verdict(
                    output_search(o, seq!["Chain INPUT (policy DROP)"@, "Chain FORWARD (policy DROP)"@, "Chain OUTPUT (policy DROP)"@]),
                    "unable to verify iptables settings"@,
                    "unable to find expected iptables values"@,
                ),
    {
        let args = ["-L"];
        let wanted = ["Chain INPUT (policy DROP)", "Chain FORWARD (policy DROP)", "Chain OUTPUT (policy DROP)"];
        assert(strs_view(args@) =~= seq!["-L"@]);
        assert(strs_view(wanted@) =~= seq!["Chain INPUT (policy DROP)"@, "Chain FORWARD (policy DROP)"@, "Chain OUTPUT (policy DROP)"@]);
        check_output_contains(
            sac,
            IPTABLES_CMD,
            &args,
            &wanted,
            "unable to verify iptables settings",
            "unable to find expected iptables values",
        )
    }

    fn metadata(&self) -> (r: CheckerMetadata)
        ensures
            r.describes(
                "Ensure IPv4 default deny firewall policy"@,
                "3.4.1.1"@,
                2,
                "br03040101"@,
                Mode::Automatic,
            ),
    {
        CheckerMetadata {
            title: "Ensure IPv4 default deny firewall policy".to_owned(),
            id: "3.4.1.1".to_owned(),
            level: 2,
            name: "br03040101".to_owned(),
            mode: Mode::Automatic,
        }
    }
}

/// Checks the IPv4 loopback firewall rules, whose order matters.
pub struct BR03040102Checker {}

impl Checker for BR03040102Checker {
    fn execute<S: SystemAccess>(&self, sac: &S) -> (r: CheckerResult)
        ensures
            exists|argv: Seq<Seq<char>>, i: Option<(bool, Seq<u8>, Seq<u8>)>|
                argv == seq!["-L"@, "INPUT"@, "-v"@, "-n"@] && #[trigger] sac.command_outcome(IPTABLES_CMD@, argv, i)
                    && if input_rules_missing(i, ("ACCEPT"@, "--  lo     *       0.0.0.0/0            0.0.0.0/0"@), ("DROP"@, "--  *      *       127.0.0.0/8          0.0.0.0/0"@)) {
                    r@ == (CheckStatus::FAIL, "Unable to find expected iptables INPUT values"@)
                } else {
                    exists|argv2: Seq<Seq<char>>, o: Option<(bool, Seq<u8>, Seq<u8>)>|
                        argv2 == seq!["-L"@, "OUTPUT"@, "-v"@, "-n"@] && #[trigger] sac.command_outcome(
                            IPTABLES_CMD@,
                            argv2,
                            o,
                        ) && r@ == loopback_verdict(
                            i,
                            o,
                            ("ACCEPT"@, "--  lo     *       0.0.0.0/0            0.0.0.0/0"@),
                            ("DROP"@, "--  *      *       127.0.0.0/8          0.0.0.0/0"@),
                            "ACCEPT     all  --  *      lo      0.0.0.0/0            0.0.0.0/0"@,
                        )
                },
    {
        loopback_rules(
            sac,
            IPTABLES_CMD,
            ("ACCEPT", "--  lo     *       0.0.0.0/0            0.0.0.0/0"),
            ("DROP", "--  *      *       127.0.0.0/8          0.0.0.0/0"),
            "ACCEPT     all  --  *      lo      0.0.0.0/0            0.0.0.0/0",
        )
    }

    fn metadata(&self) -> (r: CheckerMetadata)
        ensures
            r.describes(
                "Ensure IPv4 loopback traffic is configured"@,
                "3.4.1.2"@,
                2,
                "br03040102"@,
                Mode::Automatic,
            ),
    {
        CheckerMetadata {
            title: "Ensure IPv4 loopback traffic is configured".to_owned(),
            id: "3.4.1.2".to_owned(),
            level: 2,
            name: "br03040102".to_owned(),
            mode: Mode::Automatic,
        }
    }
}

/// Checks that every IPv6 chain drops traffic by default.
pub struct BR03040201Checker {}

impl Checker for BR03040201Checker {
    fn execute<S: SystemAccess>(&self, sac: &S) -> (r: CheckerResult)
        ensures
            exists|argv: Seq<Seq<char>>, o: Option<(bool, Seq<u8>, Seq<u8>)>|
                argv == seq!["-L"@] && #[trigger] sac.command_outcome(IP6TABLES_CMD@, argv, o) && r@ == verdict(
                    output_search(o, seq!["Chain INPUT (policy DROP)"@, "Chain FORWARD (policy DROP)"@, "Chain OUTPUT (policy DROP)"@]),
                    "unable to verify ip6tables settings"@,
                    "unable to find expected ip6tables values"@,
                ),
    {
        let args = ["-L"];
        let wanted = ["Chain INPUT (policy DROP)", "Chain FORWARD (policy DROP)", "Chain OUTPUT (policy DROP)"];
        assert(strs_view(args@) =~= seq!["-L"@]);
        assert(strs_view(wanted@) =~= seq!["Chain INPUT (policy DROP)"@, "Chain FORWARD (policy DROP)"@, "Chain OUTPUT (policy DROP)"@]);
        check_output_contains(
            sac,
            IP6TABLES_CMD,
            &args,
            &wanted,
            "unable to verify ip6tables settings",
            "unable to find expected ip6tables values",
        )
    }

    fn metadata(&self) -> (r: CheckerMetadata)
        ensures
            r.describes(
                "Ensure IPv6 default deny firewall policy"@,
                "3.4.2.1"@,
                2,
                "br03040201"@,
                Mode::Automatic,
            ),
    {
        CheckerMetadata {
            title: "Ensure IPv6 default deny firewall policy".to_owned(),
            id: "3.4.2.1".to_owned(),
            level: 2,
            name: "br03040201".to_owned(),
            mode: Mode::Automatic,
        }
    }
}

/// Checks the IPv6 loopback firewall rules, whose order matters.
pub struct BR03040202Checker {}

impl Checker for BR03040202Checker {
    fn execute<S: SystemAccess>(&self, sac: &S) -> (r: CheckerResult)
        ensures
            exists|argv: Seq<Seq<char>>, i: Option<(bool, Seq<u8>, Seq<u8>)>|
                argv == seq!["-L"@, "INPUT"@, "-v"@, "-n"@] && #[trigger] sac.command_outcome(IP6TABLES_CMD@, argv, i)
                    && if input_rules_missing(i, ("ACCEPT"@, "--  lo     *       ::/0                 ::/0"@), ("DROP"@, "--  *      *       ::1                  ::/0"@)) {
                    r@ == (CheckStatus::FAIL, "Unable to find expected iptables INPUT values"@)
                } else {
                    exists|argv2: Seq<Seq<char>>, o: Option<(bool, Seq<u8>, Seq<u8>)>|
                        argv2 == seq!["-L"@, "OUTPUT"@, "-v"@, "-n"@] && #[trigger] sac.command_outcome(
                            IP6TABLES_CMD@,
                            argv2,
                            o,
                        ) && r@ == loopback_verdict(
                            i,
                            o,
                            ("ACCEPT"@, "--  lo     *       ::/0                 ::/0"@),
                            ("DROP"@, "--  *      *       ::1                  ::/0"@),
                            "ACCEPT     all  --  *      lo      ::/0                 ::/0"@,
                        )
                },
    {
        loopback_rules(
            sac,
            IP6TABLES_CMD,
            ("ACCEPT", "--  lo     *       ::/0                 ::/0"),
            ("DROP", "--  *      *       ::1                  ::/0"),
            "ACCEPT     all  --  *      lo      ::/0                 ::/0",
        )
    }

    fn metadata(&self) -> (r: CheckerMetadata)
        ensures
            r.describes(
                "Ensure IPv6 loopback traffic is configured"@,
                "3.4.2.2"@,
                2,
                "br03040202"@,
                Mode::Automatic,
            ),
    {
        CheckerMetadata {
            title: "Ensure IPv6 loopback traffic is configured".to_owned(),
            id: "3.4.2.2".to_owned(),
            level: 2,
            name: "br03040202".to_owned(),
            mode: Mode::Automatic,
        }
    }
}

/// Checks that journald keeps logs on persistent storage.
pub struct BR04010101Checker {}

impl Checker for BR04010101Checker {
    fn execute<S: SystemAccess>(&self, sac: &S) -> (r: CheckerResult)
        ensures
            exists|c: Option<Seq<u8>>|
                #[trigger] sac.open_outcome(JOURNALD_CONF_FILE@, c) && r@ == verdict(
                    strings_search(c, seq!["Storage=persistent"@]),
                    "unable to verify journald settings"@,
                    "journald is not configured"@,
                ),
    {
        let wanted = ["Storage=persistent"];
        assert(strs_view(wanted@) =~= seq!["Storage=persistent"@]);
        check_file_contains(sac, JOURNALD_CONF_FILE, &wanted, "unable to verify journald settings", "journald is not configured")
    }

    fn metadata(&self) -> (r: CheckerMetadata)
        ensures
            r.describes(
                "Ensure journald is configured to write logs to persistent disk"@,
                "4.1.1.1"@,
                1,
                "br04010101"@,
                Mode::Automatic,
            ),
    {
        CheckerMetadata {
            title: "Ensure journald is configured to write logs to persistent disk".to_owned(),
            id: "4.1.1.1".to_owned(),
            level: 1,
            name: "br04010101".to_owned(),
            mode: Mode::Automatic,
        }
    }
}

/// Checks that no journal file grants any permission to others.
pub struct BR04010200Checker {}

impl Checker for BR04010200Checker {
    fn execute<S: SystemAccess>(&self, sac: &S) -> (r: CheckerResult)
        ensures
            exists|entries: Seq<(Seq<char>, FileMetadata)>|
                #[trigger] sac.walk_outcome(JOURNAL_DIR@, entries) && r@ == scan_verdict(
                    entries,
                    EntryRule::NoAccessForOthers,
                ),
    {
        let entries = sac.walk_dir(JOURNAL_DIR);
        scan_entries(&entries, EntryRule::NoAccessForOthers)
    }

    fn metadata(&self) -> (r: CheckerMetadata)
        ensures
            r.describes(
                "Ensure permissions on journal files are configured"@,
                "4.1.2"@,
                1,
                "br04010200"@,
                Mode::Automatic,
            ),
    {
        CheckerMetadata {
            title: "Ensure permissions on journal files are configured".to_owned(),
            id: "4.1.2".to_owned(),
            level: 1,
            name: "br04010200".to_owned(),
            mode: Mode::Automatic,
        }
    }
}

} // verus!
