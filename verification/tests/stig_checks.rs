use bloodhound::results::{CheckStatus, Checker};
use bloodhound::system_access::{CommandOutput, UnitTestSystemAccess};
use bloodhound::kubernetes::{KUBELET_CLIENT_CA_FILE, KUBELET_CONFIG_DIR, KUBELET_CONF_FILE, KUBELET_KUBECONFIG_FILE, KUBELET_PKI_DIR, KUBEPROXY_KUBECONFIG_FILE, KUBERNETES_MANIFESTS_DIR};
use bloodhound::stig_checks::{STIGV242393Checker, STIGV242406Checker, STIGV242407Checker, STIGV242408Checker, STIGV242444Checker, STIGV242447Checker, STIGV242448Checker, STIGV242449Checker, STIGV242450Checker, STIGV242451Checker, STIGV242452Checker, STIGV242453Checker, STIGV242456Checker, STIGV242457Checker, STIGV242466Checker, STIGV242467Checker, SYSTEMCTL_CMD};

#[test]
fn test_k8sstigv242393checker_pass() {
    let mut sac = UnitTestSystemAccess::default();
    sac.register_command(
        SYSTEMCTL_CMD,
        &["show", "--property", "ActiveState", "sshd"],
        CommandOutput {
            success: true,
            stdout: "ActiveState=inactive".into(),
            stderr: vec![],
        },
    );

    let checker = STIGV242393Checker {};
    let result = checker.execute(&sac);
    assert_eq!(result.status, CheckStatus::PASS);
}

#[test]
fn test_k8sstigv242393checker_fail_service_active() {
    let mut sac = UnitTestSystemAccess::default();
    sac.register_command(
        SYSTEMCTL_CMD,
        &["show", "--property", "ActiveState", "sshd"],
        CommandOutput {
            success: true,
            stdout: "ActiveState=active".into(),
            stderr: vec![],
        },
    );
    let checker = STIGV242393Checker {};
    let result = checker.execute(&sac);
    assert_eq!(result.status, CheckStatus::FAIL);
}

#[test]
fn test_k8sstigv242393checker_command_error() {
    let mut sac = UnitTestSystemAccess::default();
    sac.register_command(
        SYSTEMCTL_CMD,
        &["show", "--property", "ActiveState", "sshd"],
        CommandOutput {
            success: false,
            stdout: vec![],
            stderr: vec![],
        },
    );

    let checker = STIGV242393Checker {};
    let result = checker.execute(&sac);
    assert_eq!(result.status, CheckStatus::SKIP);
}

#[test]
fn test_k8sstigv242406checker_pass() {
    let mut sac = UnitTestSystemAccess::default();
    // Register files in the kubelet config directory with root ownership
    sac.register_file_with_metadata(
        &format!("{KUBELET_CONFIG_DIR}/config"),
        "config content",
        libc::S_IFREG | 0o644,
        0,
        0,
    );
    sac.register_file_with_metadata(
        &format!("{KUBELET_CONFIG_DIR}/kubeconfig"),
        "kubeconfig content",
        libc::S_IFREG | 0o644,
        0,
        0,
    );
    let checker = STIGV242406Checker {};
    let result = checker.execute(&sac);
    assert_eq!(result.status, CheckStatus::PASS);
}

#[test]
fn test_k8sstigv242406checker_fail_wrong_owner() {
    let mut sac = UnitTestSystemAccess::default();
    sac.register_file_with_metadata(
        &format!("{KUBELET_CONFIG_DIR}/config"),
        "",
        libc::S_IFREG | 0o644,
        1000,
        0,
    );
    let checker = STIGV242406Checker {};
    let result = checker.execute(&sac);
    assert_eq!(result.status, CheckStatus::FAIL);
}

#[test]
fn test_k8sstigv242406checker_fail_wrong_group() {
    let mut sac = UnitTestSystemAccess::default();
    sac.register_file_with_metadata(
        &format!("{KUBELET_CONFIG_DIR}/config"),
        "",
        libc::S_IFREG | 0o644,
        0,
        1000,
    );
    let checker = STIGV242406Checker {};
    let result = checker.execute(&sac);
    assert_eq!(result.status, CheckStatus::FAIL);
}

#[test]
fn test_k8sstigv242407checker_pass() {
    let mut sac = UnitTestSystemAccess::default();
    // Register files with proper permissions (644)
    sac.register_file_with_metadata(
        &format!("{KUBELET_CONFIG_DIR}/config"),
        "config content",
        libc::S_IFREG | 0o644,
        0,
        0,
    );
    sac.register_file_with_metadata(
        &format!("{KUBELET_CONFIG_DIR}/kubeconfig"),
        "kubeconfig content",
        libc::S_IFREG | 0o600,
        0,
        0,
    );
    let checker = STIGV242407Checker {};
    let result = checker.execute(&sac);
    assert_eq!(result.status, CheckStatus::PASS);
}

#[test]
fn test_k8sstigv242407checker_fail_executable() {
    let mut sac = UnitTestSystemAccess::default();
    sac.register_file_with_metadata(
        &format!("{KUBELET_CONFIG_DIR}/config"),
        "",
        libc::S_IFREG | 0o755,
        0,
        0,
    );
    let checker = STIGV242407Checker {};
    let result = checker.execute(&sac);
    assert_eq!(result.status, CheckStatus::FAIL);
}

#[test]
fn test_k8sstigv242407checker_fail_group_write() {
    let mut sac = UnitTestSystemAccess::default();
    sac.register_file_with_metadata(
        &format!("{KUBELET_CONFIG_DIR}/config"),
        "",
        libc::S_IFREG | 0o664,
        0,
        0,
    );
    let checker = STIGV242407Checker {};
    let result = checker.execute(&sac);
    assert_eq!(result.status, CheckStatus::FAIL);
}

#[test]
fn test_k8sstigv242407checker_skips_directories() {
    let mut sac = UnitTestSystemAccess::default();
    // Directory with bad permissions should be skipped
    sac.register_file_with_metadata(
        &format!("{KUBELET_CONFIG_DIR}/subdir"),
        "",
        libc::S_IFDIR | 0o777,
        0,
        0,
    );
    let checker = STIGV242407Checker {};
    let result = checker.execute(&sac);
    assert_eq!(result.status, CheckStatus::PASS);
}

#[test]
fn test_k8sstigv242447checker_pass() {
    let mut sac = UnitTestSystemAccess::default();
    sac.register_file_with_metadata(KUBEPROXY_KUBECONFIG_FILE, "", 0o644, 0, 0);
    let checker = STIGV242447Checker {};
    let result = checker.execute(&sac);
    assert_eq!(result.status, CheckStatus::PASS);
}

#[test]
fn test_k8sstigv242447checker_pass_more_restrictive() {
    let mut sac = UnitTestSystemAccess::default();
    sac.register_file_with_metadata(KUBEPROXY_KUBECONFIG_FILE, "", 0o600, 0, 0);
    let checker = STIGV242447Checker {};
    let result = checker.execute(&sac);
    assert_eq!(result.status, CheckStatus::PASS);
}

#[test]
fn test_k8sstigv242447checker_fail_too_permissive() {
    let mut sac = UnitTestSystemAccess::default();
    sac.register_file_with_metadata(KUBEPROXY_KUBECONFIG_FILE, "", 0o666, 0, 0);
    let checker = STIGV242447Checker {};
    let result = checker.execute(&sac);
    assert_eq!(result.status, CheckStatus::FAIL);
}

#[test]
fn test_k8sstigv242447checker_fail_executable() {
    let mut sac = UnitTestSystemAccess::default();
    sac.register_file_with_metadata(KUBEPROXY_KUBECONFIG_FILE, "", 0o755, 0, 0);
    let checker = STIGV242447Checker {};
    let result = checker.execute(&sac);
    assert_eq!(result.status, CheckStatus::FAIL);
}

#[test]
fn test_k8sstigv242447checker_file_missing() {
    let sac = UnitTestSystemAccess::default();
    let checker = STIGV242447Checker {};
    let result = checker.execute(&sac);
    assert_eq!(result.status, CheckStatus::SKIP);
}

#[test]
fn test_k8sstigv242448checker_pass() {
    let mut sac = UnitTestSystemAccess::default();
    sac.register_file_with_metadata(KUBEPROXY_KUBECONFIG_FILE, "", 0o644, 0, 0);
    let checker = STIGV242448Checker {};
    let result = checker.execute(&sac);
    assert_eq!(result.status, CheckStatus::PASS);
}

#[test]
fn test_k8sstigv242448checker_fail_wrong_owner() {
    let mut sac = UnitTestSystemAccess::default();
    sac.register_file_with_metadata(KUBEPROXY_KUBECONFIG_FILE, "", 0o644, 1000, 0);
    let checker = STIGV242448Checker {};
    let result = checker.execute(&sac);
    assert_eq!(result.status, CheckStatus::FAIL);
}

#[test]
fn test_k8sstigv242448checker_fail_wrong_group() {
    let mut sac = UnitTestSystemAccess::default();
    sac.register_file_with_metadata(KUBEPROXY_KUBECONFIG_FILE, "", 0o644, 0, 100);
    let checker = STIGV242448Checker {};
    let result = checker.execute(&sac);
    assert_eq!(result.status, CheckStatus::FAIL);
}

#[test]
fn test_k8sstigv242449checker_pass() {
    let mut sac = UnitTestSystemAccess::default();
    sac.register_file_with_metadata(KUBELET_CLIENT_CA_FILE, "", 0o644, 0, 0);
    let checker = STIGV242449Checker {};
    let result = checker.execute(&sac);
    assert_eq!(result.status, CheckStatus::PASS);
}

#[test]
fn test_k8sstigv242449checker_pass_more_restrictive() {
    let mut sac = UnitTestSystemAccess::default();
    sac.register_file_with_metadata(KUBELET_CLIENT_CA_FILE, "", 0o600, 0, 0);
    let checker = STIGV242449Checker {};
    let result = checker.execute(&sac);
    assert_eq!(result.status, CheckStatus::PASS);
}

#[test]
fn test_k8sstigv242449checker_fail_too_permissive() {
    let mut sac = UnitTestSystemAccess::default();
    sac.register_file_with_metadata(KUBELET_CLIENT_CA_FILE, "", 0o666, 0, 0);
    let checker = STIGV242449Checker {};
    let result = checker.execute(&sac);
    assert_eq!(result.status, CheckStatus::FAIL);
}

#[test]
fn test_k8sstigv242449checker_fail_executable() {
    let mut sac = UnitTestSystemAccess::default();
    sac.register_file_with_metadata(KUBELET_CLIENT_CA_FILE, "", 0o755, 0, 0);
    let checker = STIGV242449Checker {};
    let result = checker.execute(&sac);
    assert_eq!(result.status, CheckStatus::FAIL);
}

#[test]
fn test_k8sstigv242449checker_file_missing() {
    let sac = UnitTestSystemAccess::default();
    let checker = STIGV242449Checker {};
    let result = checker.execute(&sac);
    assert_eq!(result.status, CheckStatus::SKIP);
}

#[test]
fn test_k8sstigv242450checker_pass() {
    let mut sac = UnitTestSystemAccess::default();
    sac.register_file_with_metadata(KUBELET_CLIENT_CA_FILE, "", 0o644, 0, 0);
    let checker = STIGV242450Checker {};
    let result = checker.execute(&sac);
    assert_eq!(result.status, CheckStatus::PASS);
}

#[test]
fn test_k8sstigv242450checker_fail_wrong_owner() {
    let mut sac = UnitTestSystemAccess::default();
    sac.register_file_with_metadata(KUBELET_CLIENT_CA_FILE, "", 0o644, 1000, 0);
    let checker = STIGV242450Checker {};
    let result = checker.execute(&sac);
    assert_eq!(result.status, CheckStatus::FAIL);
}

#[test]
fn test_k8sstigv242450checker_fail_wrong_group() {
    let mut sac = UnitTestSystemAccess::default();
    sac.register_file_with_metadata(KUBELET_CLIENT_CA_FILE, "", 0o644, 0, 100);
    let checker = STIGV242450Checker {};
    let result = checker.execute(&sac);
    assert_eq!(result.status, CheckStatus::FAIL);
}

#[test]
fn test_k8sstigv242451checker_pass() {
    let mut sac = UnitTestSystemAccess::default();
    // Register PKI files with root ownership
    sac.register_file_with_metadata(
        &format!("{KUBELET_PKI_DIR}/kubelet.crt"),
        "cert content",
        libc::S_IFREG | 0o644,
        0,
        0,
    );
    sac.register_file_with_metadata(
        &format!("{KUBELET_PKI_DIR}/kubelet.key"),
        "key content",
        libc::S_IFREG | 0o600,
        0,
        0,
    );
    let checker = STIGV242451Checker {};
    let result = checker.execute(&sac);
    assert_eq!(result.status, CheckStatus::PASS);
}

#[test]
fn test_k8sstigv242451checker_fail_wrong_owner() {
    let mut sac = UnitTestSystemAccess::default();
    sac.register_file_with_metadata(
        &format!("{KUBELET_PKI_DIR}/kubelet.crt"),
        "",
        libc::S_IFREG | 0o644,
        1000,
        0,
    );
    let checker = STIGV242451Checker {};
    let result = checker.execute(&sac);
    assert_eq!(result.status, CheckStatus::FAIL);
}

#[test]
fn test_k8sstigv242451checker_fail_wrong_group() {
    let mut sac = UnitTestSystemAccess::default();
    sac.register_file_with_metadata(
        &format!("{KUBELET_PKI_DIR}/kubelet.key"),
        "",
        libc::S_IFREG | 0o600,
        0,
        1000,
    );
    let checker = STIGV242451Checker {};
    let result = checker.execute(&sac);
    assert_eq!(result.status, CheckStatus::FAIL);
}

#[test]
fn test_k8sstigv242466checker_pass() {
    let mut sac = UnitTestSystemAccess::default();
    sac.register_file_with_metadata(
        &format!("{KUBELET_PKI_DIR}/kubelet.crt"),
        "",
        libc::S_IFREG | 0o644,
        0,
        0,
    );
    let checker = STIGV242466Checker {};
    let result = checker.execute(&sac);
    assert_eq!(result.status, CheckStatus::PASS);
}

#[test]
fn test_k8sstigv242466checker_fail_executable() {
    let mut sac = UnitTestSystemAccess::default();
    sac.register_file_with_metadata(
        &format!("{KUBELET_PKI_DIR}/kubelet.crt"),
        "",
        libc::S_IFREG | 0o755,
        0,
        0,
    );
    let checker = STIGV242466Checker {};
    let result = checker.execute(&sac);
    assert_eq!(result.status, CheckStatus::FAIL);
}

#[test]
fn test_k8sstigv242466checker_skips_non_crt() {
    let mut sac = UnitTestSystemAccess::default();
    // .key file with bad permissions should be skipped
    sac.register_file_with_metadata(
        &format!("{KUBELET_PKI_DIR}/kubelet.key"),
        "",
        libc::S_IFREG | 0o777,
        0,
        0,
    );
    let checker = STIGV242466Checker {};
    let result = checker.execute(&sac);
    assert_eq!(result.status, CheckStatus::PASS);
}

#[test]
fn test_k8sstigv242467checker_pass() {
    let mut sac = UnitTestSystemAccess::default();
    sac.register_file_with_metadata(
        &format!("{KUBELET_PKI_DIR}/kubelet.key"),
        "",
        libc::S_IFREG | 0o600,
        0,
        0,
    );
    let checker = STIGV242467Checker {};
    let result = checker.execute(&sac);
    assert_eq!(result.status, CheckStatus::PASS);
}

#[test]
fn test_k8sstigv242467checker_fail_group_readable() {
    let mut sac = UnitTestSystemAccess::default();
    sac.register_file_with_metadata(
        &format!("{KUBELET_PKI_DIR}/kubelet.key"),
        "",
        libc::S_IFREG | 0o640,
        0,
        0,
    );
    let checker = STIGV242467Checker {};
    let result = checker.execute(&sac);
    assert_eq!(result.status, CheckStatus::FAIL);
}

#[test]
fn test_k8sstigv242467checker_skips_non_key() {
    let mut sac = UnitTestSystemAccess::default();
    // .crt file with bad permissions should be skipped
    sac.register_file_with_metadata(
        &format!("{KUBELET_PKI_DIR}/kubelet.crt"),
        "",
        libc::S_IFREG | 0o777,
        0,
        0,
    );
    let checker = STIGV242467Checker {};
    let result = checker.execute(&sac);
    assert_eq!(result.status, CheckStatus::PASS);
}

#[test]
fn test_k8sstigv242408checker_pass() {
    let mut sac = UnitTestSystemAccess::default();
    sac.register_file_with_metadata(
        &format!("{KUBERNETES_MANIFESTS_DIR}/pod.yaml"),
        "",
        libc::S_IFREG | 0o644,
        0,
        0,
    );
    let checker = STIGV242408Checker {};
    let result = checker.execute(&sac);
    assert_eq!(result.status, CheckStatus::PASS);
}

#[test]
fn test_k8sstigv242408checker_fail_executable() {
    let mut sac = UnitTestSystemAccess::default();
    sac.register_file_with_metadata(
        &format!("{KUBERNETES_MANIFESTS_DIR}/pod.yaml"),
        "",
        libc::S_IFREG | 0o755,
        0,
        0,
    );
    let checker = STIGV242408Checker {};
    let result = checker.execute(&sac);
    assert_eq!(result.status, CheckStatus::FAIL);
}

#[test]
fn test_k8sstigv242408checker_skips_directories() {
    let mut sac = UnitTestSystemAccess::default();
    sac.register_file_with_metadata(
        &format!("{KUBERNETES_MANIFESTS_DIR}/subdir"),
        "",
        libc::S_IFDIR | 0o777,
        0,
        0,
    );
    let checker = STIGV242408Checker {};
    let result = checker.execute(&sac);
    assert_eq!(result.status, CheckStatus::PASS);
}

#[test]
fn test_k8sstigv242444checker_pass() {
    let mut sac = UnitTestSystemAccess::default();
    sac.register_file_with_metadata(
        &format!("{KUBERNETES_MANIFESTS_DIR}/pod.yaml"),
        "",
        libc::S_IFREG | 0o644,
        0,
        0,
    );
    let checker = STIGV242444Checker {};
    let result = checker.execute(&sac);
    assert_eq!(result.status, CheckStatus::PASS);
}

#[test]
fn test_k8sstigv242444checker_fail_wrong_owner() {
    let mut sac = UnitTestSystemAccess::default();
    sac.register_file_with_metadata(
        &format!("{KUBERNETES_MANIFESTS_DIR}/pod.yaml"),
        "",
        libc::S_IFREG | 0o644,
        1000,
        0,
    );
    let checker = STIGV242444Checker {};
    let result = checker.execute(&sac);
    assert_eq!(result.status, CheckStatus::FAIL);
}

#[test]
fn test_k8sstigv242444checker_fail_wrong_group() {
    let mut sac = UnitTestSystemAccess::default();
    sac.register_file_with_metadata(
        &format!("{KUBERNETES_MANIFESTS_DIR}/pod.yaml"),
        "",
        libc::S_IFREG | 0o644,
        0,
        1000,
    );
    let checker = STIGV242444Checker {};
    let result = checker.execute(&sac);
    assert_eq!(result.status, CheckStatus::FAIL);
}

#[test]
fn test_k8sstigv242452checker_pass() {
    let mut sac = UnitTestSystemAccess::default();
    sac.register_file_with_metadata(KUBELET_KUBECONFIG_FILE, "", 0o644, 0, 0);
    let checker = STIGV242452Checker {};
    let result = checker.execute(&sac);
    assert_eq!(result.status, CheckStatus::PASS);
}

#[test]
fn test_k8sstigv242452checker_pass_more_restrictive() {
    let mut sac = UnitTestSystemAccess::default();
    sac.register_file_with_metadata(KUBELET_KUBECONFIG_FILE, "", 0o600, 0, 0);
    let checker = STIGV242452Checker {};
    let result = checker.execute(&sac);
    assert_eq!(result.status, CheckStatus::PASS);
}

#[test]
fn test_k8sstigv242452checker_fail_too_permissive() {
    let mut sac = UnitTestSystemAccess::default();
    sac.register_file_with_metadata(KUBELET_KUBECONFIG_FILE, "", 0o666, 0, 0);
    let checker = STIGV242452Checker {};
    let result = checker.execute(&sac);
    assert_eq!(result.status, CheckStatus::FAIL);
}

#[test]
fn test_k8sstigv242452checker_fail_executable() {
    let mut sac = UnitTestSystemAccess::default();
    sac.register_file_with_metadata(KUBELET_KUBECONFIG_FILE, "", 0o755, 0, 0);
    let checker = STIGV242452Checker {};
    let result = checker.execute(&sac);
    assert_eq!(result.status, CheckStatus::FAIL);
}

#[test]
fn test_k8sstigv242452checker_file_missing() {
    let sac = UnitTestSystemAccess::default();
    let checker = STIGV242452Checker {};
    let result = checker.execute(&sac);
    assert_eq!(result.status, CheckStatus::SKIP);
}

#[test]
fn test_k8sstigv242453checker_pass() {
    let mut sac = UnitTestSystemAccess::default();
    sac.register_file_with_metadata(KUBELET_KUBECONFIG_FILE, "", 0o644, 0, 0);
    let checker = STIGV242453Checker {};
    let result = checker.execute(&sac);
    assert_eq!(result.status, CheckStatus::PASS);
}

#[test]
fn test_k8sstigv242453checker_fail_wrong_owner() {
    let mut sac = UnitTestSystemAccess::default();
    sac.register_file_with_metadata(KUBELET_KUBECONFIG_FILE, "", 0o644, 1000, 0);
    let checker = STIGV242453Checker {};
    let result = checker.execute(&sac);
    assert_eq!(result.status, CheckStatus::FAIL);
}

#[test]
fn test_k8sstigv242453checker_fail_wrong_group() {
    let mut sac = UnitTestSystemAccess::default();
    sac.register_file_with_metadata(KUBELET_KUBECONFIG_FILE, "", 0o644, 0, 100);
    let checker = STIGV242453Checker {};
    let result = checker.execute(&sac);
    assert_eq!(result.status, CheckStatus::FAIL);
}

#[test]
fn test_k8sstigv242453checker_file_missing() {
    let sac = UnitTestSystemAccess::default();
    let checker = STIGV242453Checker {};
    let result = checker.execute(&sac);
    assert_eq!(result.status, CheckStatus::SKIP);
}

#[test]
fn test_k8sstigv242456checker_pass() {
    let mut sac = UnitTestSystemAccess::default();
    sac.register_file_with_metadata(KUBELET_CONF_FILE, "", 0o644, 0, 0);
    let checker = STIGV242456Checker {};
    let result = checker.execute(&sac);
    assert_eq!(result.status, CheckStatus::PASS);
}

#[test]
fn test_k8sstigv242456checker_pass_more_restrictive() {
    let mut sac = UnitTestSystemAccess::default();
    sac.register_file_with_metadata(KUBELET_CONF_FILE, "", 0o600, 0, 0);
    let checker = STIGV242456Checker {};
    let result = checker.execute(&sac);
    assert_eq!(result.status, CheckStatus::PASS);
}

#[test]
fn test_k8sstigv242456checker_fail_too_permissive() {
    let mut sac = UnitTestSystemAccess::default();
    sac.register_file_with_metadata(KUBELET_CONF_FILE, "", 0o666, 0, 0);
    let checker = STIGV242456Checker {};
    let result = checker.execute(&sac);
    assert_eq!(result.status, CheckStatus::FAIL);
}

#[test]
fn test_k8sstigv242456checker_fail_executable() {
    let mut sac = UnitTestSystemAccess::default();
    sac.register_file_with_metadata(KUBELET_CONF_FILE, "", 0o755, 0, 0);
    let checker = STIGV242456Checker {};
    let result = checker.execute(&sac);
    assert_eq!(result.status, CheckStatus::FAIL);
}

#[test]
fn test_k8sstigv242456checker_file_missing() {
    let sac = UnitTestSystemAccess::default();
    let checker = STIGV242456Checker {};
    let result = checker.execute(&sac);
    assert_eq!(result.status, CheckStatus::SKIP);
}

#[test]
fn test_k8sstigv242457checker_pass() {
    let mut sac = UnitTestSystemAccess::default();
    sac.register_file_with_metadata(KUBELET_CONF_FILE, "", 0o644, 0, 0);
    let checker = STIGV242457Checker {};
    let result = checker.execute(&sac);
    assert_eq!(result.status, CheckStatus::PASS);
}

#[test]
fn test_k8sstigv242457checker_fail_wrong_owner() {
    let mut sac = UnitTestSystemAccess::default();
    sac.register_file_with_metadata(KUBELET_CONF_FILE, "", 0o644, 1000, 0);
    let checker = STIGV242457Checker {};
    let result = checker.execute(&sac);
    assert_eq!(result.status, CheckStatus::FAIL);
}

#[test]
fn test_k8sstigv242457checker_fail_wrong_group() {
    let mut sac = UnitTestSystemAccess::default();
    sac.register_file_with_metadata(KUBELET_CONF_FILE, "", 0o644, 0, 100);
    let checker = STIGV242457Checker {};
    let result = checker.execute(&sac);
    assert_eq!(result.status, CheckStatus::FAIL);
}
