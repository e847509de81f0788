//! Checks of the Kubernetes STIG for Bottlerocket worker nodes.
use vstd::prelude::*;

use crate::kubernetes::{
    anonymous_auth_verdict, configured_file_verdict, ensure_kubelet_anonymous_auth_disabled,
    ensure_kubelet_client_ca_configured, ensure_kubelet_private_cert_set,
    ensure_kubelet_private_key_set, ensure_kubelet_readonly_port_disabled, readonly_port_verdict,
    unparsable_error, unparsable_result, unreadable_error, unreadable_result,
    AnonymousAuthConfig, AuthorizationConfig, CertFileConfig, ClientCaConfig, IdleTimeoutConfig,
    KernelProtectionConfig, KubeletConfigRead, PrivateKeyConfig, ReadOnlyPortConfig,
    StaticPodPathConfig, KUBELET_CLIENT_CA_FILE, KUBELET_CONFIG_DIR, KUBELET_CONF_FILE,
    KUBELET_KUBECONFIG_FILE, KUBELET_PKI_DIR, KUBEPROXY_KUBECONFIG_FILE, KUBERNETES_MANIFESTS_DIR,
};
use crate::mode_bits::no_x_xw_xw;
use crate::results::{outcome, passed, verdict, CheckStatus, Checker, CheckerMetadata, CheckerResult, Mode};
use crate::scan::{scan_entries, scan_verdict, EntryRule};
use crate::system_access::{strs_view, FileMetadata, SystemAccess};
use crate::{
    check_file_not_mode, check_output_contains, ensure_file_owner_and_group_root,
    not_mode_verdict, output_search, root_owner_verdict,
};

verus! {

pub const SYSTEMCTL_CMD: &'static str = "/usr/bin/systemctl";

/// What `parse_duration::parse` gives for the text: the duration as seconds and
/// nanoseconds, or nothing when the text is not a duration it understands.
pub uninterp spec fn parsed_duration(text: Seq<char>) -> Option<(u64, u32)>;

/// `parse_duration::parse`: the duration that the text describes, as whole seconds
/// and the nanoseconds beyond them (always below one second), or nothing when the
/// text cannot be parsed. For a text with an enormous exponent (such as
/// `1e99999999999s`) the call computes a power of ten that exhausts memory and does
/// not return; like any failed allocation, that lies outside what is stated here.
#[verifier::external_body]
fn parse_duration_text(text: &str) -> (r: Option<(u64, u32)>)
    ensures
        r == parsed_duration(text@),
        r matches Some(d) ==> d.1 < 1_000_000_000,
{
    match parse_duration::parse(text) {
        Ok(d) => Some((d.as_secs(), d.subsec_nanos())),
        Err(_) => None,
    }
}

/// The idle timeout check for a timeout as text and what parsing it gave: shorter
/// than 5 minutes fails, a timeout that cannot be parsed is skipped.
pub open spec fn idle_timeout_verdict(timeout: Seq<char>, parsed: Option<(u64, u32)>) -> (
    CheckStatus,
    Seq<char>,
) {
    match parsed {
        Some(d) => if d.0 < 300 {
            (CheckStatus::FAIL, "Kubelet streamingConnectionIdleTimeout is set to "@ + timeout)
        } else {
            (CheckStatus::PASS, Seq::empty())
        },
        None => (CheckStatus::SKIP, Seq::empty()),
    }
}

/// Decides the idle timeout check from the configured timeout and what parsing it gave.
pub fn idle_timeout_result(timeout: &str, parsed: Option<(u64, u32)>) -> (r: CheckerResult)
    ensures
        r@ == idle_timeout_verdict(timeout@, parsed),
{
    match parsed {
        Some((secs, _nanos)) => if secs < 300 {
            let mut error = "Kubelet streamingConnectionIdleTimeout is set to ".to_owned();
            error.append(timeout);
            CheckerResult { status: CheckStatus::FAIL, error }
        } else {
            passed()
        },
        None => CheckerResult::default(),
    }
}

/// Checks that the kubelet's read-only port is disabled.
pub struct STIGV242387Checker {}

impl STIGV242387Checker {
    /// Runs the check on what reading the kubelet configuration gave.
    pub fn evaluate(&self, config: &KubeletConfigRead<ReadOnlyPortConfig>) -> (r: CheckerResult)
        ensures
            r@ == readonly_port_verdict(*config),
    {
        ensure_kubelet_readonly_port_disabled(config)
    }

    /// Describes the check.
    pub fn metadata(&self) -> (r: CheckerMetadata)
        ensures
            r.describes(
                "The Kubernetes Kubelet must have the \"readOnlyPort\" flag disabled."@,
                "V-242387"@,
                1,
                "k8sstigv242387"@,
                Mode::Automatic,
            ),
    {
        CheckerMetadata {
            title: "The Kubernetes Kubelet must have the \"readOnlyPort\" flag disabled.".to_owned(),
            id: "V-242387".to_owned(),
            level: 1,
            name: "k8sstigv242387".to_owned(),
            mode: Mode::Automatic,
        }
    }
}

/// Checks that the kubelet refuses anonymous requests.
pub struct STIGV242391Checker {}

impl STIGV242391Checker {
    /// Runs the check on what reading the kubelet configuration gave.
    pub fn evaluate(&self, config: &KubeletConfigRead<AnonymousAuthConfig>) -> (r: CheckerResult)
        ensures
            r@ == anonymous_auth_verdict(*config),
    {
        ensure_kubelet_anonymous_auth_disabled(config)
    }

    /// Describes the check.
    pub fn metadata(&self) -> (r: CheckerMetadata)
        ensures
            r.describes(
                "The Kubernetes Kubelet must have anonymous authentication disabled."@,
                "V-242391"@,
                1,
                "k8sstigv242391"@,
                Mode::Automatic,
            ),
    {
        CheckerMetadata {
            title: "The Kubernetes Kubelet must have anonymous authentication disabled.".to_owned(),
            id: "V-242391".to_owned(),
            level: 1,
            name: "k8sstigv242391".to_owned(),
            mode: Mode::Automatic,
        }
    }
}

/// Checks that the kubelet authorizes requests through a webhook.
pub struct STIGV242392Checker {}

impl STIGV242392Checker {
    /// Runs the check on what reading the kubelet configuration gave.
    pub fn evaluate(&self, config: &KubeletConfigRead<AuthorizationConfig>) -> (r: CheckerResult)
        ensures
            match *config {
                KubeletConfigRead::Unreadable => r@ == (CheckStatus::SKIP, unreadable_error()),
                KubeletConfigRead::Unparsable => r@ == (CheckStatus::SKIP, unparsable_error()),
                KubeletConfigRead::Parsed(c) => if c.mode@ != "Webhook"@ {
                    r@ == (CheckStatus::FAIL, "Authorization mode not configured as Webhook"@)
                } else {
                    r@ == (CheckStatus::PASS, Seq::<char>::empty())
                },
            },
    {
        match config {
            KubeletConfigRead::Unreadable => unreadable_result(),
            KubeletConfigRead::Unparsable => unparsable_result(),
            KubeletConfigRead::Parsed(c) => if c.mode != "Webhook".to_owned() {
                outcome(CheckStatus::FAIL, "Authorization mode not configured as Webhook")
            } else {
                passed()
            },
        }
    }

    /// Describes the check.
    pub fn metadata(&self) -> (r: CheckerMetadata)
        ensures
            r.describes(
                "The Kubernetes kubelet must enable explicit authorization."@,
                "V-242392"@,
                1,
                "k8sstigv242392"@,
                Mode::Automatic,
            ),
    {
        CheckerMetadata {
            title: "The Kubernetes kubelet must enable explicit authorization.".to_owned(),
            id: "V-242392".to_owned(),
            level: 1,
            name: "k8sstigv242392".to_owned(),
            mode: Mode::Automatic,
        }
    }
}

/// Checks that the sshd service is not running.
pub struct STIGV242393Checker {}

impl Checker for STIGV242393Checker {
    fn execute<S: SystemAccess>(&self, sac: &S) -> (r: CheckerResult)
        ensures
            exists|argv: Seq<Seq<char>>, o: Option<(bool, Seq<u8>, Seq<u8>)>|
                argv == seq!["show"@, "--property"@, "ActiveState"@, "sshd"@] && #[trigger] sac.command_outcome(SYSTEMCTL_CMD@, argv, o) && r@ == verdict(
                    output_search(o, seq!["ActiveState=inactive"@]),
                    "unable to verify sshd service is not active"@,
                    "sshd service is active"@,
                ),
    {
        let args = ["show", "--property", "ActiveState", "sshd"];
        let wanted = ["ActiveState=inactive"];
        assert(strs_view(args@) =~= seq!["show"@, "--property"@, "ActiveState"@, "sshd"@]);
        assert(strs_view(wanted@) =~= seq!["ActiveState=inactive"@]);
        check_output_contains(
            sac,
            SYSTEMCTL_CMD,
            &args,
            &wanted,
            "unable to verify sshd service is not active",
            "sshd service is active",
        )
    }

    fn metadata(&self) -> (r: CheckerMetadata)
        ensures
            r.describes(
                "Kubernetes Worker Nodes must not have sshd service running."@,
                "V-242393"@,
                2,
                "k8sstigv242393"@,
                Mode::Automatic,
            ),
    {
        CheckerMetadata {
            title: "Kubernetes Worker Nodes must not have sshd service running.".to_owned(),
            id: "V-242393".to_owned(),
            level: 2,
            name: "k8sstigv242393".to_owned(),
            mode: Mode::Automatic,
        }
    }
}

/// Checks that the kubelet does not run static pods.
pub struct STIGV242397Checker {}

impl STIGV242397Checker {
    /// Runs the check on what reading the kubelet configuration gave.
    pub fn evaluate(&self, config: &KubeletConfigRead<StaticPodPathConfig>) -> (r: CheckerResult)
        ensures
            match *config {
                KubeletConfigRead::Unreadable => r@ == (CheckStatus::SKIP, unreadable_error()),
                KubeletConfigRead::Unparsable => r@ == (CheckStatus::PASS, Seq::<char>::empty()),
                KubeletConfigRead::Parsed(c) => if c.static_pod_path@.len() != 0 {
                    r@ == (CheckStatus::FAIL, "staticPodPath must be empty"@)
                } else {
                    r@ == (CheckStatus::PASS, Seq::<char>::empty())
                },
            },
    {
        match config {
            KubeletConfigRead::Unreadable => unreadable_result(),
            // staticPodPath is unset by default, so a configuration without it passes.
            KubeletConfigRead::Unparsable => passed(),
            KubeletConfigRead::Parsed(c) => if !c.static_pod_path.as_str().is_empty() {
                outcome(CheckStatus::FAIL, "staticPodPath must be empty")
            } else {
                passed()
            },
        }
    }

    /// Describes the check.
    pub fn metadata(&self) -> (r: CheckerMetadata)
        ensures
            r.describes(
                "The Kubernetes kubelet staticPodPath must not enable static pods."@,
                "V-242397"@,
                1,
                "k8sstigv242397"@,
                Mode::Automatic,
            ),
    {
        CheckerMetadata {
            title: "The Kubernetes kubelet staticPodPath must not enable static pods.".to_owned(),
            id: "V-242397".to_owned(),
            level: 1,
            name: "k8sstigv242397".to_owned(),
            mode: Mode::Automatic,
        }
    }
}

/// Passes: DynamicKubeletConfig was removed in Kubernetes 1.24, older than any kubelet Bottlerocket ships.
pub struct STIGV242399Checker {}

impl Checker for STIGV242399Checker {
    fn execute<S: SystemAccess>(&self, sac: &S) -> (r: CheckerResult)
        ensures
            r@ == (CheckStatus::PASS, Seq::<char>::empty()),
    {
        passed()
    }

    fn metadata(&self) -> (r: CheckerMetadata)
        ensures
            r.describes(
                "Kubernetes DynamicKubeletConfig must not be enabled."@,
                "V-242399"@,
                2,
                "k8sstigv242399"@,
                Mode::Automatic,
            ),
    {
        CheckerMetadata {
            title: "Kubernetes DynamicKubeletConfig must not be enabled.".to_owned(),
            id: "V-242399".to_owned(),
            level: 2,
            name: "k8sstigv242399".to_owned(),
            mode: Mode::Automatic,
        }
    }
}

/// Checks that every kubelet configuration file is owned by root:root.
pub struct STIGV242406Checker {}

impl Checker for STIGV242406Checker {
    fn execute<S: SystemAccess>(&self, sac: &S) -> (r: CheckerResult)
        ensures
            exists|entries: Seq<(Seq<char>, FileMetadata)>|
                #[trigger] sac.walk_outcome(KUBELET_CONFIG_DIR@, entries) && r@ == scan_verdict(
                    entries,
                    EntryRule::OwnedByRoot,
                ),
    {
        let entries = sac.walk_dir(KUBELET_CONFIG_DIR);
        scan_entries(&entries, EntryRule::OwnedByRoot)
    }

    fn metadata(&self) -> (r: CheckerMetadata)
        ensures
            r.describes(
                "The Kubernetes KubeletConfiguration file must be owned by root."@,
                "V-242406"@,
                2,
                "k8sstigv242406"@,
                Mode::Automatic,
            ),
    {
        CheckerMetadata {
            title: "The Kubernetes KubeletConfiguration file must be owned by root.".to_owned(),
            id: "V-242406".to_owned(),
            level: 2,
            name: "k8sstigv242406".to_owned(),
            mode: Mode::Automatic,
        }
    }
}

/// Checks that kubelet configuration files are set to 644 or more restrictive.
pub struct STIGV242407Checker {}

impl Checker for STIGV242407Checker {
    fn execute<S: SystemAccess>(&self, sac: &S) -> (r: CheckerResult)
        ensures
            exists|entries: Seq<(Seq<char>, FileMetadata)>|
                #[trigger] sac.walk_outcome(KUBELET_CONFIG_DIR@, entries) && r@ == scan_verdict(
                    entries,
                    EntryRule::FilesAt644,
                ),
    {
        let entries = sac.walk_dir(KUBELET_CONFIG_DIR);
        scan_entries(&entries, EntryRule::FilesAt644)
    }

    fn metadata(&self) -> (r: CheckerMetadata)
        ensures
            r.describes(
                "The Kubernetes KubeletConfiguration files must have file permissions set to 644 or more restrictive."@,
                "V-242407"@,
                2,
                "k8sstigv242407"@,
                Mode::Automatic,
            ),
    {
        CheckerMetadata {
            title: "The Kubernetes KubeletConfiguration files must have file permissions set to 644 or more restrictive.".to_owned(),
            id: "V-242407".to_owned(),
            level: 2,
            name: "k8sstigv242407".to_owned(),
            mode: Mode::Automatic,
        }
    }
}

/// Checks that the kubelet verifies clients against an existing certificate authority file.
pub struct STIGV242420Checker {}

impl STIGV242420Checker {
    /// Runs the check on what reading the kubelet configuration gave.
    pub fn evaluate<S: SystemAccess>(&self, sac: &S, config: &KubeletConfigRead<ClientCaConfig>) -> (r: CheckerResult)
        ensures
            match *config {
                KubeletConfigRead::Unreadable => r@ == (CheckStatus::SKIP, unreadable_error()),
                KubeletConfigRead::Unparsable => r@ == (CheckStatus::SKIP, unparsable_error()),
                KubeletConfigRead::Parsed(c) => if c.client_ca_file@.len() == 0 {
                    r@ == configured_file_verdict(c.client_ca_file@, false, "CA file not set to expected path"@)
                } else {
                    exists|present: bool|
                        #[trigger] sac.presence_outcome(c.client_ca_file@, present) && r@
                            == configured_file_verdict(c.client_ca_file@, present, "CA file not set to expected path"@)
                },
            },
    {
        ensure_kubelet_client_ca_configured(sac, config)
    }

    /// Describes the check.
    pub fn metadata(&self) -> (r: CheckerMetadata)
        ensures
            r.describes(
                "Kubernetes Kubelet must have the SSL Certificate Authority set."@,
                "V-242420"@,
                2,
                "k8sstigv242420"@,
                Mode::Automatic,
            ),
    {
        CheckerMetadata {
            title: "Kubernetes Kubelet must have the SSL Certificate Authority set.".to_owned(),
            id: "V-242420".to_owned(),
            level: 2,
            name: "k8sstigv242420".to_owned(),
            mode: Mode::Automatic,
        }
    }
}

/// Checks that the kubelet's TLS private key file is set and exists.
pub struct STIGV242424Checker {}

impl STIGV242424Checker {
    /// Runs the check on what reading the kubelet configuration gave.
    pub fn evaluate<S: SystemAccess>(&self, sac: &S, config: &KubeletConfigRead<PrivateKeyConfig>) -> (r: CheckerResult)
        ensures
            match *config {
                KubeletConfigRead::Unreadable => r@ == (CheckStatus::SKIP, unreadable_error()),
                KubeletConfigRead::Unparsable => r@ == (CheckStatus::PASS, Seq::<char>::empty()),
                KubeletConfigRead::Parsed(c) => if c.tls_private_key_file@.len() == 0 {
                    r@ == configured_file_verdict(c.tls_private_key_file@, false, "TLS private key files not set to expected path"@)
                } else {
                    exists|present: bool|
                        #[trigger] sac.presence_outcome(c.tls_private_key_file@, present) && r@
                            == configured_file_verdict(c.tls_private_key_file@, present, "TLS private key files not set to expected path"@)
                },
            },
    {
        ensure_kubelet_private_key_set(sac, config)
    }

    /// Describes the check.
    pub fn metadata(&self) -> (r: CheckerMetadata)
        ensures
            r.describes(
                "Kubernetes Kubelet must enable tlsPrivateKeyFile for client authentication to secure service."@,
                "V-242424"@,
                2,
                "k8sstigv242424"@,
                Mode::Automatic,
            ),
    {
        CheckerMetadata {
            title: "Kubernetes Kubelet must enable tlsPrivateKeyFile for client authentication to secure service.".to_owned(),
            id: "V-242424".to_owned(),
            level: 2,
            name: "k8sstigv242424".to_owned(),
            mode: Mode::Automatic,
        }
    }
}

/// Checks that the kubelet's TLS certificate file is set and exists.
pub struct STIGV242425Checker {}

impl STIGV242425Checker {
    /// Runs the check on what reading the kubelet configuration gave.
    pub fn evaluate<S: SystemAccess>(&self, sac: &S, config: &KubeletConfigRead<CertFileConfig>) -> (r: CheckerResult)
        ensures
            match *config {
                KubeletConfigRead::Unreadable => r@ == (CheckStatus::SKIP, unreadable_error()),
                KubeletConfigRead::Unparsable => r@ == (CheckStatus::PASS, Seq::<char>::empty()),
                KubeletConfigRead::Parsed(c) => if c.tls_cert_file@.len() == 0 {
                    r@ == configured_file_verdict(c.tls_cert_file@, false, "TLS private cert file not set to expected path"@)
                } else {
                    exists|present: bool|
                        #[trigger] sac.presence_outcome(c.tls_cert_file@, present) && r@
                            == configured_file_verdict(c.tls_cert_file@, present, "TLS private cert file not set to expected path"@)
                },
            },
    {
        ensure_kubelet_private_cert_set(sac, config)
    }

    /// Describes the check.
    pub fn metadata(&self) -> (r: CheckerMetadata)
        ensures
            r.describes(
                "Kubernetes Kubelet must enable tlsCertFile for client authentication to secure service."@,
                "V-242425"@,
                2,
                "k8sstigv242425"@,
                Mode::Automatic,
            ),
    {
        CheckerMetadata {
            title: "Kubernetes Kubelet must enable tlsCertFile for client authentication to secure service.".to_owned(),
            id: "V-242425".to_owned(),
            level: 2,
            name: "k8sstigv242425".to_owned(),
            mode: Mode::Automatic,
        }
    }
}

/// Checks that the kubelet protects kernel defaults.
pub struct STIGV242434Checker {}

impl STIGV242434Checker {
    /// Runs the check on what reading the kubelet configuration gave.
    pub fn evaluate(&self, config: &KubeletConfigRead<KernelProtectionConfig>) -> (r: CheckerResult)
        ensures
            match *config {
                KubeletConfigRead::Unreadable => r@ == (CheckStatus::SKIP, unreadable_error()),
                KubeletConfigRead::Unparsable => r@ == (CheckStatus::FAIL, "protectKernelDefault must be set"@),
                KubeletConfigRead::Parsed(c) => if !c.protect_kernel_defaults {
                    r@ == (CheckStatus::FAIL, "protectKernelDefault must be set"@)
                } else {
                    r@ == (CheckStatus::PASS, Seq::<char>::empty())
                },
            },
    {
        match config {
            KubeletConfigRead::Unreadable => unreadable_result(),
            // protectKernelDefaults is false by default, so a configuration without it fails.
            KubeletConfigRead::Unparsable => outcome(CheckStatus::FAIL, "protectKernelDefault must be set"),
            KubeletConfigRead::Parsed(c) => if !c.protect_kernel_defaults {
                outcome(CheckStatus::FAIL, "protectKernelDefault must be set")
            } else {
                passed()
            },
        }
    }

    /// Describes the check.
    pub fn metadata(&self) -> (r: CheckerMetadata)
        ensures
            r.describes(
                "Kubernetes Kubelet must enable kernel protection."@,
                "V-242434"@,
                1,
                "k8sstigv242434"@,
                Mode::Automatic,
            ),
    {
        CheckerMetadata {
            title: "Kubernetes Kubelet must enable kernel protection.".to_owned(),
            id: "V-242434".to_owned(),
            level: 1,
            name: "k8sstigv242434".to_owned(),
            mode: Mode::Automatic,
        }
    }
}

/// Checks that the kube-proxy kubeconfig is set to 644 or more restrictive.
pub struct STIGV242447Checker {}

impl Checker for STIGV242447Checker {
    fn execute<S: SystemAccess>(&self, sac: &S) -> (r: CheckerResult)
        ensures
            exists|m: Option<FileMetadata>|
                #[trigger] sac.metadata_outcome(KUBEPROXY_KUBECONFIG_FILE@, m) && r@ == not_mode_verdict(
                    m,
                    KUBEPROXY_KUBECONFIG_FILE@,
                    0o133,
                ),
    {
        check_file_not_mode(sac, KUBEPROXY_KUBECONFIG_FILE, no_x_xw_xw())
    }

    fn metadata(&self) -> (r: CheckerMetadata)
        ensures
            r.describes(
                "The Kubernetes Kube Proxy kubeconfig must have file permissions set to 644 or more restrictive."@,
                "V-242447"@,
                2,
                "k8sstigv242447"@,
                Mode::Automatic,
            ),
    {
        CheckerMetadata {
            title: "The Kubernetes Kube Proxy kubeconfig must have file permissions set to 644 or more restrictive.".to_owned(),
            id: "V-242447".to_owned(),
            level: 2,
            name: "k8sstigv242447".to_owned(),
            mode: Mode::Automatic,
        }
    }
}

/// Checks that the kube-proxy kubeconfig is owned by root:root.
pub struct STIGV242448Checker {}

impl Checker for STIGV242448Checker {
    fn execute<S: SystemAccess>(&self, sac: &S) -> (r: CheckerResult)
        ensures
            exists|m: Option<FileMetadata>|
                #[trigger] sac.metadata_outcome(KUBEPROXY_KUBECONFIG_FILE@, m) && r@ == root_owner_verdict(m),
    {
        ensure_file_owner_and_group_root(sac, KUBEPROXY_KUBECONFIG_FILE)
    }

    fn metadata(&self) -> (r: CheckerMetadata)
        ensures
            r.describes(
                "The Kubernetes Kube Proxy kubeconfig must be owned by root."@,
                "V-242448"@,
                2,
                "k8sstigv242448"@,
                Mode::Automatic,
            ),
    {
        CheckerMetadata {
            title: "The Kubernetes Kube Proxy kubeconfig must be owned by root.".to_owned(),
            id: "V-242448".to_owned(),
            level: 2,
            name: "k8sstigv242448".to_owned(),
            mode: Mode::Automatic,
        }
    }
}

/// Checks that the kubelet certificate authority file is set to 644 or more restrictive.
pub struct STIGV242449Checker {}

impl Checker for STIGV242449Checker {
    fn execute<S: SystemAccess>(&self, sac: &S) -> (r: CheckerResult)
        ensures
            exists|m: Option<FileMetadata>|
                #[trigger] sac.metadata_outcome(KUBELET_CLIENT_CA_FILE@, m) && r@ == not_mode_verdict(
                    m,
                    KUBELET_CLIENT_CA_FILE@,
                    0o133,
                ),
    {
        check_file_not_mode(sac, KUBELET_CLIENT_CA_FILE, no_x_xw_xw())
    }

    fn metadata(&self) -> (r: CheckerMetadata)
        ensures
            r.describes(
                "The Kubernetes Kubelet certificate authority file must have file permissions set to 644 or more restrictive."@,
                "V-242449"@,
                2,
                "k8sstigv242449"@,
                Mode::Automatic,
            ),
    {
        CheckerMetadata {
            title: "The Kubernetes Kubelet certificate authority file must have file permissions set to 644 or more restrictive.".to_owned(),
            id: "V-242449".to_owned(),
            level: 2,
            name: "k8sstigv242449".to_owned(),
            mode: Mode::Automatic,
        }
    }
}

/// Checks that the kubelet certificate authority file is owned by root:root.
pub struct STIGV242450Checker {}

impl Checker for STIGV242450Checker {
    fn execute<S: SystemAccess>(&self, sac: &S) -> (r: CheckerResult)
        ensures
            exists|m: Option<FileMetadata>|
                #[trigger] sac.metadata_outcome(KUBELET_CLIENT_CA_FILE@, m) && r@ == root_owner_verdict(m),
    {
        ensure_file_owner_and_group_root(sac, KUBELET_CLIENT_CA_FILE)
    }

    fn metadata(&self) -> (r: CheckerMetadata)
        ensures
            r.describes(
                "The Kubernetes Kubelet certificate authority must be owned by root."@,
                "V-242450"@,
                2,
                "k8sstigv242450"@,
                Mode::Automatic,
            ),
    {
        CheckerMetadata {
            title: "The Kubernetes Kubelet certificate authority must be owned by root.".to_owned(),
            id: "V-242450".to_owned(),
            level: 2,
            name: "k8sstigv242450".to_owned(),
            mode: Mode::Automatic,
        }
    }
}

/// Checks that every file of the kubelet PKI is owned by root:root.
pub struct STIGV242451Checker {}

impl Checker for STIGV242451Checker {
    fn execute<S: SystemAccess>(&self, sac: &S) -> (r: CheckerResult)
        ensures
            exists|entries: Seq<(Seq<char>, FileMetadata)>|
                #[trigger] sac.walk_outcome(KUBELET_PKI_DIR@, entries) && r@ == scan_verdict(
                    entries,
                    EntryRule::OwnedByRoot,
                ),
    {
        let entries = sac.walk_dir(KUBELET_PKI_DIR);
        scan_entries(&entries, EntryRule::OwnedByRoot)
    }

    fn metadata(&self) -> (r: CheckerMetadata)
        ensures
            r.describes(
                "The Kubernetes component PKI must be owned by root."@,
                "V-242451"@,
                2,
                "k8sstigv242451"@,
                Mode::Automatic,
            ),
    {
        CheckerMetadata {
            title: "The Kubernetes component PKI must be owned by root.".to_owned(),
            id: "V-242451".to_owned(),
            level: 2,
            name: "k8sstigv242451".to_owned(),
            mode: Mode::Automatic,
        }
    }
}

/// Checks that PKI certificates (`.crt`) are set to 644 or more restrictive.
pub struct STIGV242466Checker {}

impl Checker for STIGV242466Checker {
    fn execute<S: SystemAccess>(&self, sac: &S) -> (r: CheckerResult)
        ensures
            exists|entries: Seq<(Seq<char>, FileMetadata)>|
                #[trigger] sac.walk_outcome(KUBELET_PKI_DIR@, entries) && r@ == scan_verdict(
                    entries,
                    EntryRule::CertificatesAt644,
                ),
    {
        let entries = sac.walk_dir(KUBELET_PKI_DIR);
        scan_entries(&entries, EntryRule::CertificatesAt644)
    }

    fn metadata(&self) -> (r: CheckerMetadata)
        ensures
            r.describes(
                "The Kubernetes PKI CRT must have file permissions set to 644 or more restrictive."@,
                "V-242466"@,
                2,
                "k8sstigv242466"@,
                Mode::Automatic,
            ),
    {
        CheckerMetadata {
            title: "The Kubernetes PKI CRT must have file permissions set to 644 or more restrictive.".to_owned(),
            id: "V-242466".to_owned(),
            level: 2,
            name: "k8sstigv242466".to_owned(),
            mode: Mode::Automatic,
        }
    }
}

/// Checks that PKI keys (`.key`) are set to 600 or more restrictive.
pub struct STIGV242467Checker {}

impl Checker for STIGV242467Checker {
    fn execute<S: SystemAccess>(&self, sac: &S) -> (r: CheckerResult)
        ensures
            exists|entries: Seq<(Seq<char>, FileMetadata)>|
                #[trigger] sac.walk_outcome(KUBELET_PKI_DIR@, entries) && r@ == scan_verdict(
                    entries,
                    EntryRule::KeysAt600,
                ),
    {
        let entries = sac.walk_dir(KUBELET_PKI_DIR);
        scan_entries(&entries, EntryRule::KeysAt600)
    }

    fn metadata(&self) -> (r: CheckerMetadata)
        ensures
            r.describes(
                "The Kubernetes PKI keys must have file permissions set to 600 or more restrictive."@,
                "V-242467"@,
                2,
                "k8sstigv242467"@,
                Mode::Automatic,
            ),
    {
        CheckerMetadata {
            title: "The Kubernetes PKI keys must have file permissions set to 600 or more restrictive.".to_owned(),
            id: "V-242467".to_owned(),
            level: 2,
            name: "k8sstigv242467".to_owned(),
            mode: Mode::Automatic,
        }
    }
}

/// Checks that the kubelet kubeconfig is set to 644 or more restrictive.
pub struct STIGV242452Checker {}

impl Checker for STIGV242452Checker {
    fn execute<S: SystemAccess>(&self, sac: &S) -> (r: CheckerResult)
        ensures
            exists|m: Option<FileMetadata>|
                #[trigger] sac.metadata_outcome(KUBELET_KUBECONFIG_FILE@, m) && r@ == not_mode_verdict(
                    m,
                    KUBELET_KUBECONFIG_FILE@,
                    0o133,
                ),
    {
        check_file_not_mode(sac, KUBELET_KUBECONFIG_FILE, no_x_xw_xw())
    }

    fn metadata(&self) -> (r: CheckerMetadata)
        ensures
            r.describes(
                "The Kubernetes kubelet KubeConfig must have file permissions set to 644 or more restrictive."@,
                "V-242452"@,
                2,
                "k8sstigv242452"@,
                Mode::Automatic,
            ),
    {
        CheckerMetadata {
            title: "The Kubernetes kubelet KubeConfig must have file permissions set to 644 or more restrictive.".to_owned(),
            id: "V-242452".to_owned(),
            level: 2,
            name: "k8sstigv242452".to_owned(),
            mode: Mode::Automatic,
        }
    }
}

/// Checks that the kubelet kubeconfig is owned by root:root.
pub struct STIGV242453Checker {}

impl Checker for STIGV242453Checker {
    fn execute<S: SystemAccess>(&self, sac: &S) -> (r: CheckerResult)
        ensures
            exists|m: Option<FileMetadata>|
                #[trigger] sac.metadata_outcome(KUBELET_KUBECONFIG_FILE@, m) && r@ == root_owner_verdict(m),
    {
        ensure_file_owner_and_group_root(sac, KUBELET_KUBECONFIG_FILE)
    }

    fn metadata(&self) -> (r: CheckerMetadata)
        ensures
            r.describes(
                "The Kubernetes kubelet KubeConfig file must be owned by root."@,
                "V-242453"@,
                2,
                "k8sstigv242453"@,
                Mode::Automatic,
            ),
    {
        CheckerMetadata {
            title: "The Kubernetes kubelet KubeConfig file must be owned by root.".to_owned(),
            id: "V-242453".to_owned(),
            level: 2,
            name: "k8sstigv242453".to_owned(),
            mode: Mode::Automatic,
        }
    }
}

/// Checks that the kubelet configuration file is set to 644 or more restrictive.
pub struct STIGV242456Checker {}

impl Checker for STIGV242456Checker {
    fn execute<S: SystemAccess>(&self, sac: &S) -> (r: CheckerResult)
        ensures
            exists|m: Option<FileMetadata>|
                #[trigger] sac.metadata_outcome(KUBELET_CONF_FILE@, m) && r@ == not_mode_verdict(
                    m,
                    KUBELET_CONF_FILE@,
                    0o133,
                ),
    {
        check_file_not_mode(sac, KUBELET_CONF_FILE, no_x_xw_xw())
    }

    fn metadata(&self) -> (r: CheckerMetadata)
        ensures
            r.describes(
                "The Kubernetes kubelet config must have file permissions set to 644 or more restrictive."@,
                "V-242456"@,
                2,
                "k8sstigv242456"@,
                Mode::Automatic,
            ),
    {
        CheckerMetadata {
            title: "The Kubernetes kubelet config must have file permissions set to 644 or more restrictive.".to_owned(),
            id: "V-242456".to_owned(),
            level: 2,
            name: "k8sstigv242456".to_owned(),
            mode: Mode::Automatic,
        }
    }
}

/// Checks that the kubelet configuration file is owned by root:root.
pub struct STIGV242457Checker {}

impl Checker for STIGV242457Checker {
    fn execute<S: SystemAccess>(&self, sac: &S) -> (r: CheckerResult)
        ensures
            exists|m: Option<FileMetadata>|
                #[trigger] sac.metadata_outcome(KUBELET_CONF_FILE@, m) && r@ == root_owner_verdict(m),
    {
        ensure_file_owner_and_group_root(sac, KUBELET_CONF_FILE)
    }

    fn metadata(&self) -> (r: CheckerMetadata)
        ensures
            r.describes(
                "The Kubernetes kubelet config must be owned by root."@,
                "V-242457"@,
                2,
                "k8sstigv242457"@,
                Mode::Automatic,
            ),
    {
        CheckerMetadata {
            title: "The Kubernetes kubelet config must be owned by root.".to_owned(),
            id: "V-242457".to_owned(),
            level: 2,
            name: "k8sstigv242457".to_owned(),
            mode: Mode::Automatic,
        }
    }
}

/// Checks that the kubelet does not drop idle streaming connections too early.
pub struct STIGV245541Checker {}

impl STIGV245541Checker {
    /// Runs the check on what reading the kubelet configuration gave.
    pub fn evaluate(&self, config: &KubeletConfigRead<IdleTimeoutConfig>) -> (r: CheckerResult)
        ensures
            match *config {
                KubeletConfigRead::Unreadable => r@ == (CheckStatus::SKIP, unreadable_error()),
                KubeletConfigRead::Unparsable => r@ == (CheckStatus::PASS, Seq::<char>::empty()),
                KubeletConfigRead::Parsed(c) => r@ == idle_timeout_verdict(
                    c.streaming_connection_idle_timeout@,
                    parsed_duration(c.streaming_connection_idle_timeout@),
                ),
            },
    {
        match config {
            KubeletConfigRead::Unreadable => unreadable_result(),
            // The timeout is normally unset, and its default of 4 hours passes.
            KubeletConfigRead::Unparsable => passed(),
            KubeletConfigRead::Parsed(c) => {
                let timeout = c.streaming_connection_idle_timeout.as_str();
                idle_timeout_result(timeout, parse_duration_text(timeout))
            },
        }
    }

    /// Describes the check.
    pub fn metadata(&self) -> (r: CheckerMetadata)
        ensures
            r.describes(
                "Kubernetes Kubelet must not disable timeouts."@,
                "V-245541"@,
                2,
                "k8sstigv245541"@,
                Mode::Automatic,
            ),
    {
        CheckerMetadata {
            title: "Kubernetes Kubelet must not disable timeouts.".to_owned(),
            id: "V-245541".to_owned(),
            level: 2,
            name: "k8sstigv245541".to_owned(),
            mode: Mode::Automatic,
        }
    }
}

/// Passes: the DynamicAuditing feature gate was removed in Kubernetes 1.19.
pub struct STIGV242398Checker {}

impl Checker for STIGV242398Checker {
    fn execute<S: SystemAccess>(&self, sac: &S) -> (r: CheckerResult)
        ensures
            r@ == (CheckStatus::PASS, Seq::<char>::empty()),
    {
        passed()
    }

    fn metadata(&self) -> (r: CheckerMetadata)
        ensures
            r.describes(
                "Kubernetes DynamicAuditing must not be enabled."@,
                "V-242398"@,
                2,
                "k8sstigv242398"@,
                Mode::Automatic,
            ),
    {
        CheckerMetadata {
            title: "Kubernetes DynamicAuditing must not be enabled.".to_owned(),
            id: "V-242398".to_owned(),
            level: 2,
            name: "k8sstigv242398".to_owned(),
            mode: Mode::Automatic,
        }
    }
}

/// Passes: the PodSecurity feature gate became GA in Kubernetes 1.25 and was removed in 1.28.
pub struct STIGV254801Checker {}

impl Checker for STIGV254801Checker {
    fn execute<S: SystemAccess>(&self, sac: &S) -> (r: CheckerResult)
        ensures
            r@ == (CheckStatus::PASS, Seq::<char>::empty()),
    {
        passed()
    }

    fn metadata(&self) -> (r: CheckerMetadata)
        ensures
            r.describes(
                "Kubernetes must enable PodSecurity admission controller on static pods and Kubelets."@,
                "V-254801"@,
                1,
                "k8sstigv254801"@,
                Mode::Automatic,
            ),
    {
        CheckerMetadata {
            title: "Kubernetes must enable PodSecurity admission controller on static pods and Kubelets.".to_owned(),
            id: "V-254801".to_owned(),
            level: 1,
            name: "k8sstigv254801".to_owned(),
            mode: Mode::Automatic,
        }
    }
}

/// Checks that Kubernetes manifest files are set to 644 or more restrictive.
pub struct STIGV242408Checker {}

impl Checker for STIGV242408Checker {
    fn execute<S: SystemAccess>(&self, sac: &S) -> (r: CheckerResult)
        ensures
            exists|entries: Seq<(Seq<char>, FileMetadata)>|
                #[trigger] sac.walk_outcome(KUBERNETES_MANIFESTS_DIR@, entries) && r@ == scan_verdict(
                    entries,
                    EntryRule::FilesAt644,
                ),
    {
        let entries = sac.walk_dir(KUBERNETES_MANIFESTS_DIR);
        scan_entries(&entries, EntryRule::FilesAt644)
    }

    fn metadata(&self) -> (r: CheckerMetadata)
        ensures
            r.describes(
                "The Kubernetes manifest files must have least privileged permissions."@,
                "V-242408"@,
                2,
                "k8sstigv242408"@,
                Mode::Automatic,
            ),
    {
        CheckerMetadata {
            title: "The Kubernetes manifest files must have least privileged permissions.".to_owned(),
            id: "V-242408".to_owned(),
            level: 2,
            name: "k8sstigv242408".to_owned(),
            mode: Mode::Automatic,
        }
    }
}

/// Checks that every Kubernetes manifest is owned by root:root.
pub struct STIGV242444Checker {}

impl Checker for STIGV242444Checker {
    fn execute<S: SystemAccess>(&self, sac: &S) -> (r: CheckerResult)
        ensures
            exists|entries: Seq<(Seq<char>, FileMetadata)>|
                #[trigger] sac.walk_outcome(KUBERNETES_MANIFESTS_DIR@, entries) && r@ == scan_verdict(
                    entries,
                    EntryRule::OwnedByRoot,
                ),
    {
        let entries = sac.walk_dir(KUBERNETES_MANIFESTS_DIR);
        scan_entries(&entries, EntryRule::OwnedByRoot)
    }

    fn metadata(&self) -> (r: CheckerMetadata)
        ensures
            r.describes(
                "The Kubernetes manifest files must be owned by root."@,
                "V-242444"@,
                2,
                "k8sstigv242444"@,
                Mode::Automatic,
            ),
    {
        CheckerMetadata {
            title: "The Kubernetes manifest files must be owned by root.".to_owned(),
            id: "V-242444".to_owned(),
            level: 2,
            name: "k8sstigv242444".to_owned(),
            mode: Mode::Automatic,
        }
    }
}

} // verus!
