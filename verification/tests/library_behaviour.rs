//! Behaviour of the library beyond the benchmark items: the prepared system, the
//! searches, the shared checks and the explanations they report.
use bloodhound::cis_checks::{BR01010101Checker, BR04010200Checker, JOURNAL_DIR};
use bloodhound::kubernetes::{
    ensure_kubelet_client_ca_configured, ensure_kubelet_private_key_set,
    ensure_kubelet_readonly_port_disabled, ClientCaConfig, KubeletConfigRead, PrivateKeyConfig,
    ReadOnlyPortConfig,
};
use bloodhound::results::{CheckStatus, Checker, CheckerResult, ManualChecker, Mode};
use bloodhound::stig_checks::{STIGV242406Checker, STIGV242466Checker, STIGV245541Checker};
use bloodhound::kubernetes::IdleTimeoutConfig;
use bloodhound::system_access::{
    CommandOutput, DirEntry, FileMetadata, SystemAccess, UnitTestSystemAccess,
};
use bloodhound::{
    check_file_contains, check_file_exists, check_file_not_mode, check_output_contains,
    ensure_file_owner_and_group_root, look_for_string_in_file, look_for_string_in_output,
    look_for_strings_in_file, look_for_strings_in_output, look_for_word_in_file,
};

/// A system whose every file holds the same bytes and whose every command prints
/// the same bytes.
struct RawBytesSystem {
    bytes: Vec<u8>,
}

impl SystemAccess for RawBytesSystem {
    fn open(&self, _path: &str) -> Result<Vec<u8>, std::io::Error> {
        Ok(self.bytes.clone())
    }
    fn metadata(&self, _path: &str) -> Result<FileMetadata, std::io::Error> {
        Err(std::io::Error::new(std::io::ErrorKind::NotFound, "none"))
    }
    fn path_exists(&self, _path: &str) -> bool {
        false
    }
    fn command_output(&self, _cmd: &str, _args: &[&str]) -> Result<CommandOutput, std::io::Error> {
        Ok(CommandOutput { success: true, stdout: self.bytes.clone(), stderr: vec![] })
    }
    fn walk_dir(&self, _path: &str) -> Vec<DirEntry> {
        vec![]
    }
}

fn ok_output(stdout: &str) -> CommandOutput {
    CommandOutput { success: true, stdout: stdout.as_bytes().to_vec(), stderr: vec![] }
}

#[test]
fn registered_file_reads_back_and_can_be_replaced() {
    let mut sac = UnitTestSystemAccess::new();
    assert!(sac.open("/a").is_err());
    assert!(!sac.path_exists("/a"));
    sac.register_file("/a", "hello");
    assert_eq!(sac.open("/a").unwrap(), b"hello".to_vec());
    assert!(sac.path_exists("/a"));
    sac.register_file("/a", "bye");
    assert_eq!(sac.open("/a").unwrap(), b"bye".to_vec());
    assert!(sac.open("/b").is_err());
    assert!(!sac.path_exists("/b"));
}

#[test]
fn unregistered_file_is_not_found() {
    let sac = UnitTestSystemAccess::new();
    let err = sac.open("/missing").unwrap_err();
    assert_eq!(err.kind(), std::io::ErrorKind::NotFound);
}

#[test]
fn registered_metadata_reads_back_and_can_be_replaced() {
    let mut sac = UnitTestSystemAccess::default();
    sac.register_file_with_metadata("/f", "x", 0o100644, 10, 20);
    let m = sac.metadata("/f").unwrap();
    assert_eq!((m.uid, m.gid, m.mode), (10, 20, 0o100644));
    sac.register_file_with_metadata("/f", "y", 0o100600, 0, 0);
    let m = sac.metadata("/f").unwrap();
    assert_eq!((m.uid, m.gid, m.mode), (0, 0, 0o100600));
    assert_eq!(sac.open("/f").unwrap(), b"y".to_vec());
    assert!(sac.metadata("/g").is_err());
}

#[test]
fn registered_command_runs_back_only_with_its_arguments() {
    let mut sac = UnitTestSystemAccess::default();
    sac.register_command("ls", &["-l", "/"], ok_output("total 0\n"));
    let out = sac.command_output("ls", &["-l", "/"]).unwrap();
    assert!(out.success);
    assert_eq!(out.stdout, b"total 0\n".to_vec());
    assert!(sac.command_output("ls", &["-l"]).is_err());
    assert!(sac.command_output("ls", &["/", "-l"]).is_err());
    assert!(sac.command_output("dir", &["-l", "/"]).is_err());
    sac.register_command("ls", &["-l", "/"], ok_output("total 1\n"));
    assert_eq!(sac.command_output("ls", &["-l", "/"]).unwrap().stdout, b"total 1\n".to_vec());
}

#[test]
fn walk_yields_the_entries_under_the_path_in_registration_order() {
    let mut sac = UnitTestSystemAccess::default();
    sac.register_file_with_metadata("/x/a", "", 0o100644, 0, 0);
    sac.register_file_with_metadata("/y/b", "", 0o100644, 0, 0);
    sac.register_file_with_metadata("/x/c", "", 0o040755, 1, 2);
    sac.register_file("/x/d", "no metadata");
    let paths: Vec<String> = sac.walk_dir("/x").into_iter().map(|e| e.path).collect();
    assert_eq!(paths, vec!["/x/a".to_string(), "/x/c".to_string()]);
    let entries = sac.walk_dir("/x/c");
    assert_eq!(entries.len(), 1);
    assert_eq!((entries[0].metadata.uid, entries[0].metadata.gid), (1, 2));
    assert!(sac.walk_dir("/z").is_empty());
}

#[test]
fn file_and_directory_modes_are_told_apart() {
    let file = FileMetadata { uid: 0, gid: 0, mode: libc::S_IFREG | 0o644 };
    let dir = FileMetadata { uid: 0, gid: 0, mode: libc::S_IFDIR | 0o755 };
    let link = FileMetadata { uid: 0, gid: 0, mode: libc::S_IFLNK | 0o777 };
    assert!(file.is_file() && !file.is_dir());
    assert!(dir.is_dir() && !dir.is_file());
    assert!(!link.is_file() && !link.is_dir());
}

#[test]
fn a_found_word_is_a_found_string_but_not_the_other_way() {
    let mut sac = UnitTestSystemAccess::default();
    sac.register_file("/w", "a udf b\n");
    sac.register_file("/s", "myudf b\n");
    assert!(look_for_word_in_file(&sac, "/w", "udf").unwrap());
    assert!(look_for_string_in_file(&sac, "/w", "udf").unwrap());
    assert!(!look_for_word_in_file(&sac, "/s", "udf").unwrap());
    assert!(look_for_string_in_file(&sac, "/s", "udf").unwrap());
}

#[test]
fn words_are_separated_by_any_ascii_whitespace() {
    let mut sac = UnitTestSystemAccess::default();
    sac.register_file("/t", "x\tudf\ty\n");
    sac.register_file("/crlf", "udf\r\nother\r\n");
    assert!(look_for_word_in_file(&sac, "/t", "udf").unwrap());
    assert!(look_for_word_in_file(&sac, "/crlf", "udf").unwrap());
    assert!(!look_for_word_in_file(&sac, "/t", "x\tudf").unwrap());
}

#[test]
fn a_search_string_does_not_span_lines() {
    let mut sac = UnitTestSystemAccess::default();
    sac.register_file("/f", "ab\ncd\n");
    assert!(!look_for_string_in_file(&sac, "/f", "b\nc").unwrap());
    assert!(!look_for_string_in_file(&sac, "/f", "bc").unwrap());
    assert!(look_for_string_in_file(&sac, "/f", "cd").unwrap());
}

#[test]
fn every_search_string_must_be_found() {
    let mut sac = UnitTestSystemAccess::default();
    sac.register_file("/f", "a\na\n");
    assert!(!look_for_strings_in_file(&sac, "/f", &["a", "b"]).unwrap());
    assert!(look_for_strings_in_file(&sac, "/f", &["a"]).unwrap());
    assert!(!look_for_strings_in_file(&sac, "/f", &["b"]).unwrap());
    assert!(look_for_strings_in_file(&sac, "/f", &[]).unwrap());
}

#[test]
fn one_search_string_in_output_is_a_list_of_one() {
    let mut sac = UnitTestSystemAccess::default();
    sac.register_command("c", &[], ok_output("alpha\nbeta\n"));
    for needle in ["alpha", "beta", "gamma", "a\nb"] {
        assert_eq!(
            look_for_string_in_output(&sac, "c", &[], needle),
            look_for_strings_in_output(&sac, "c", &[], &[needle])
        );
    }
}

#[test]
fn a_failed_command_gives_no_answer() {
    let mut sac = UnitTestSystemAccess::default();
    sac.register_command(
        "c",
        &[],
        CommandOutput { success: false, stdout: b"alpha\n".to_vec(), stderr: vec![] },
    );
    assert_eq!(look_for_strings_in_output(&sac, "c", &[], &["alpha"]), None);
}

#[test]
fn lines_that_are_not_utf8_read_as_empty() {
    let sac = RawBytesSystem { bytes: b"bad \xff udf\nudf ok\n".to_vec() };
    assert!(look_for_word_in_file(&sac, "/f", "udf").unwrap());
    assert!(look_for_string_in_file(&sac, "/f", "ok").unwrap());
    assert!(!look_for_string_in_file(&sac, "/f", "bad").unwrap());
}

#[test]
fn command_output_that_is_not_utf8_is_read_lossily() {
    let sac = RawBytesSystem { bytes: b"x\xffinstall /bin/true\n".to_vec() };
    assert_eq!(look_for_string_in_output(&sac, "c", &[], "install /bin/true"), Some(true));
    assert_eq!(look_for_string_in_output(&sac, "c", &[], "x\u{FFFD}install"), Some(true));
    assert_eq!(look_for_string_in_output(&sac, "c", &[], "x\u{FFFD}\u{FFFD}"), Some(false));
}

#[test]
fn default_result_is_skipped_without_explanation() {
    let r = CheckerResult::default();
    assert_eq!(r.status, CheckStatus::SKIP);
    assert_eq!(r.error, "");
    assert_eq!(CheckStatus::default(), CheckStatus::SKIP);
}

#[test]
fn manual_checks_always_ask_for_an_audit() {
    let checker = ManualChecker {
        name: "k8sstigv242404".to_string(),
        title: "Kubernetes Kubelet must deny hostname override.".to_string(),
        id: "V-242404".to_string(),
        level: 2,
    };
    let mut sac = UnitTestSystemAccess::default();
    sac.register_file("/etc/kubernetes/kubelet/config", "anything");
    let r = checker.execute(&sac);
    assert_eq!(r.status, CheckStatus::SKIP);
    assert_eq!(r.error, "Manual check, see benchmark for audit details.");
    let m = checker.metadata();
    assert_eq!(m.mode, Mode::Manual);
    assert_eq!((m.name.as_str(), m.id.as_str(), m.level), ("k8sstigv242404", "V-242404", 2));
    assert_eq!(m.title, "Kubernetes Kubelet must deny hostname override.");
}

#[test]
fn automatic_check_metadata() {
    let m = BR01010101Checker {}.metadata();
    assert_eq!(m.mode, Mode::Automatic);
    assert_eq!(m.name, "br01010101");
    assert_eq!(m.id, "1.1.1.1");
    assert_eq!(m.level, 2);
    assert_eq!(m.title, "Ensure mounting of udf filesystems is disabled");
}

#[test]
fn file_exists_check() {
    let mut sac = UnitTestSystemAccess::default();
    sac.register_file("/present", "");
    let r = check_file_exists(&sac, "/present", "missing");
    assert_eq!((r.status, r.error.as_str()), (CheckStatus::PASS, ""));
    let r = check_file_exists(&sac, "/absent", "missing");
    assert_eq!((r.status, r.error.as_str()), (CheckStatus::FAIL, "missing"));
}

#[test]
fn file_contains_check_has_three_outcomes() {
    let mut sac = UnitTestSystemAccess::default();
    sac.register_file("/f", "a = 1\nb = 2\n");
    let r = check_file_contains(&sac, "/f", &["a = 1", "b = 2"], "cannot check", "not found");
    assert_eq!((r.status, r.error.as_str()), (CheckStatus::PASS, ""));
    let r = check_file_contains(&sac, "/f", &["a = 1", "c = 3"], "cannot check", "not found");
    assert_eq!((r.status, r.error.as_str()), (CheckStatus::FAIL, "not found"));
    let r = check_file_contains(&sac, "/g", &["a = 1"], "cannot check", "not found");
    assert_eq!((r.status, r.error.as_str()), (CheckStatus::SKIP, "cannot check"));
}

#[test]
fn output_contains_check_has_three_outcomes() {
    let mut sac = UnitTestSystemAccess::default();
    sac.register_command("ok", &["x"], ok_output("value = 1\n"));
    sac.register_command(
        "bad",
        &[],
        CommandOutput { success: false, stdout: b"value = 1\n".to_vec(), stderr: vec![] },
    );
    let r = check_output_contains(&sac, "ok", &["x"], &["value = 1"], "cannot check", "not found");
    assert_eq!((r.status, r.error.as_str()), (CheckStatus::PASS, ""));
    let r = check_output_contains(&sac, "ok", &["x"], &["value = 2"], "cannot check", "not found");
    assert_eq!((r.status, r.error.as_str()), (CheckStatus::FAIL, "not found"));
    let r = check_output_contains(&sac, "bad", &[], &["value = 1"], "cannot check", "not found");
    assert_eq!((r.status, r.error.as_str()), (CheckStatus::SKIP, "cannot check"));
    let r = check_output_contains(&sac, "none", &[], &["value = 1"], "cannot check", "not found");
    assert_eq!((r.status, r.error.as_str()), (CheckStatus::SKIP, "cannot check"));
}

#[test]
fn extra_permissions_are_reported_in_octal() {
    let mut sac = UnitTestSystemAccess::default();
    sac.register_file_with_metadata("/f", "", 0o100750, 0, 0);
    let r = check_file_not_mode(&sac, "/f", 0o077);
    assert_eq!(r.status, CheckStatus::FAIL);
    assert_eq!(r.error, "file /f has extra permissions: 0x750");
    let r = check_file_not_mode(&sac, "/f", 0o007);
    assert_eq!((r.status, r.error.as_str()), (CheckStatus::PASS, ""));
    let r = check_file_not_mode(&sac, "/g", 0o007);
    assert_eq!(r.status, CheckStatus::SKIP);
    assert_eq!(r.error, "unable to get file metadata information");
    sac.register_file_with_metadata("/h", "", 0o100001, 0, 0);
    let r = check_file_not_mode(&sac, "/h", 0o777);
    assert_eq!(r.error, "file /h has extra permissions: 0x1");
}

#[test]
fn ownership_check_has_three_outcomes() {
    let mut sac = UnitTestSystemAccess::default();
    sac.register_file_with_metadata("/root", "", 0o100644, 0, 0);
    sac.register_file_with_metadata("/user", "", 0o100644, 0, 5);
    let r = ensure_file_owner_and_group_root(&sac, "/root");
    assert_eq!((r.status, r.error.as_str()), (CheckStatus::PASS, ""));
    let r = ensure_file_owner_and_group_root(&sac, "/user");
    assert_eq!((r.status, r.error.as_str()), (CheckStatus::FAIL, "File owner is not root:root"));
    let r = ensure_file_owner_and_group_root(&sac, "/none");
    assert_eq!((r.status, r.error.as_str()), (CheckStatus::SKIP, "unable to get file metadata"));
}

#[test]
fn journal_scan_names_the_first_offending_file_quoted() {
    let mut sac = UnitTestSystemAccess::default();
    sac.register_file_with_metadata(&format!("{JOURNAL_DIR}/ok"), "", 0o100640, 0, 0);
    sac.register_file_with_metadata(&format!("{JOURNAL_DIR}/a\"b"), "", 0o100644, 0, 0);
    sac.register_file_with_metadata(&format!("{JOURNAL_DIR}/later"), "", 0o100604, 0, 0);
    let r = BR04010200Checker {}.execute(&sac);
    assert_eq!(r.status, CheckStatus::FAIL);
    assert_eq!(r.error, "file \"/var/log/journal/a\\\"b\" has permissions for 'other'");
}

#[test]
fn breach_messages_quote_paths_as_paths_are_debug_printed() {
    let mut sac = UnitTestSystemAccess::default();
    sac.register_file_with_metadata(&format!("{JOURNAL_DIR}/it's"), "", 0o100604, 0, 0);
    let r = BR04010200Checker {}.execute(&sac);
    assert_eq!(r.status, CheckStatus::FAIL);
    assert_eq!(r.error, format!("file {:?} has permissions for 'other'", std::path::PathBuf::from("/var/log/journal/it's")));
}

#[test]
fn walk_lists_each_registered_path_once() {
    let mut sac = UnitTestSystemAccess::default();
    sac.register_file_with_metadata("/x/a", "", 0o100644, 0, 0);
    sac.register_file_with_metadata("/x/a", "", 0o100600, 3, 4);
    sac.register_file_with_metadata("/x/b", "", 0o100644, 0, 0);
    let entries = sac.walk_dir("/x");
    assert_eq!(entries.len(), 2);
    assert_eq!(entries[0].path, "/x/a");
    assert_eq!((entries[0].metadata.uid, entries[0].metadata.gid, entries[0].metadata.mode), (3, 4, 0o100600));
    assert_eq!(entries[1].path, "/x/b");
}

#[test]
fn unregistered_command_is_not_found() {
    let sac = UnitTestSystemAccess::new();
    let err = sac.command_output("ekko", &["blah"]).unwrap_err();
    assert_eq!(err.kind(), std::io::ErrorKind::NotFound);
    let err = sac.metadata("/missing").unwrap_err();
    assert_eq!(err.kind(), std::io::ErrorKind::NotFound);
}

#[test]
fn directories_never_break_permission_scans() {
    let mut sac = UnitTestSystemAccess::default();
    sac.register_file_with_metadata(&format!("{JOURNAL_DIR}/d1"), "", libc::S_IFDIR | 0o777, 0, 0);
    sac.register_file_with_metadata(&format!("{JOURNAL_DIR}/d2"), "", libc::S_IFDIR | 0o707, 0, 0);
    assert_eq!(BR04010200Checker {}.execute(&sac).status, CheckStatus::PASS);
}

#[test]
fn ownership_scan_reports_owner_and_group() {
    let mut sac = UnitTestSystemAccess::default();
    sac.register_file_with_metadata("/etc/kubernetes/kubelet/config", "", 0o100644, 0, 0);
    sac.register_file_with_metadata("/etc/kubernetes/kubelet/kubeconfig", "", 0o100644, 1000, 7);
    let r = STIGV242406Checker {}.execute(&sac);
    assert_eq!(r.status, CheckStatus::FAIL);
    assert_eq!(
        r.error,
        "file \"/etc/kubernetes/kubelet/kubeconfig\" has non-root ownership (1000:7)"
    );
}

#[test]
fn certificate_scan_goes_by_the_file_extension() {
    let mut sac = UnitTestSystemAccess::default();
    sac.register_file_with_metadata("/etc/kubernetes/pki/.crt", "", 0o100755, 0, 0);
    sac.register_file_with_metadata("/etc/kubernetes/pki/a.CRT", "", 0o100755, 0, 0);
    sac.register_file_with_metadata("/etc/kubernetes/pki/a.crt.bak", "", 0o100755, 0, 0);
    assert_eq!(STIGV242466Checker {}.execute(&sac).status, CheckStatus::PASS);
    sac.register_file_with_metadata("/etc/kubernetes/pki/b.crt", "", 0o100755, 0, 0);
    let r = STIGV242466Checker {}.execute(&sac);
    assert_eq!(r.status, CheckStatus::FAIL);
    assert_eq!(r.error, "file \"/etc/kubernetes/pki/b.crt\" must be set to 644 or more restrictive");
}

#[test]
fn idle_timeout_boundary_is_five_minutes() {
    let check = |t: &str| {
        STIGV245541Checker {}.evaluate(&KubeletConfigRead::Parsed(IdleTimeoutConfig {
            streaming_connection_idle_timeout: t.to_string(),
        }))
    };
    let r = check("299s");
    assert_eq!(r.status, CheckStatus::FAIL);
    assert_eq!(r.error, "Kubelet streamingConnectionIdleTimeout is set to 299s");
    assert_eq!(check("300s").status, CheckStatus::PASS);
    assert_eq!(check("4m 59s").status, CheckStatus::FAIL);
    assert_eq!(check("4h").status, CheckStatus::PASS);
    let r = check("soon");
    assert_eq!((r.status, r.error.as_str()), (CheckStatus::SKIP, ""));
}

#[test]
fn kubelet_setting_checks_report_why() {
    let r = ensure_kubelet_readonly_port_disabled(&KubeletConfigRead::Unreadable);
    assert_eq!(r.status, CheckStatus::SKIP);
    assert_eq!(r.error, "unable to read '/etc/kubernetes/kubelet/config'");
    let r = ensure_kubelet_readonly_port_disabled(&KubeletConfigRead::Unparsable);
    assert_eq!((r.status, r.error.as_str()), (CheckStatus::SKIP, "unable to parse kubelet config"));
    let r = ensure_kubelet_readonly_port_disabled(&KubeletConfigRead::Parsed(ReadOnlyPortConfig {
        read_only_port: -1,
    }));
    assert_eq!((r.status, r.error.as_str()), (CheckStatus::FAIL, "Kubelet readOnlyPort not set to 0"));

    let mut sac = UnitTestSystemAccess::default();
    let ca = |p: &str| KubeletConfigRead::Parsed(ClientCaConfig { client_ca_file: p.to_string() });
    let r = ensure_kubelet_client_ca_configured(&sac, &ca("/ca.crt"));
    assert_eq!((r.status, r.error.as_str()), (CheckStatus::FAIL, "CA file not set to expected path"));
    sac.register_file("/ca.crt", "");
    let r = ensure_kubelet_client_ca_configured(&sac, &ca("/ca.crt"));
    assert_eq!(r.status, CheckStatus::PASS);

    let r = ensure_kubelet_private_key_set(&sac, &KubeletConfigRead::<PrivateKeyConfig>::Unparsable);
    assert_eq!((r.status, r.error.as_str()), (CheckStatus::PASS, ""));
    let r = ensure_kubelet_private_key_set(
        &sac,
        &KubeletConfigRead::Parsed(PrivateKeyConfig { tls_private_key_file: String::new() }),
    );
    assert_eq!(
        (r.status, r.error.as_str()),
        (CheckStatus::FAIL, "TLS private key files not set to expected path")
    );
}
