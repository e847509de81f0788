//! Kubelet configuration checks shared by the Kubernetes CIS benchmark and STIG.
//!
//! Each check looks at one setting of the kubelet configuration file. Reading the
//! file and decoding its YAML into the setting is done by the caller, which hands
//! over what it got as a `KubeletConfigRead`.
use vstd::prelude::*;

use crate::results::{outcome, passed, CheckStatus, CheckerResult};
use crate::system_access::SystemAccess;

verus! {

// Bottlerocket doesn't use the standard path for most of these files.
pub const KUBELET_SERVICE_FILE: &'static str = "/etc/systemd/system/kubelet.service.d/exec-start.conf";

pub const KUBELET_KUBECONFIG_FILE: &'static str = "/etc/kubernetes/kubelet/kubeconfig";

pub const KUBELET_CLIENT_CA_FILE: &'static str = "/etc/kubernetes/pki/ca.crt";

pub const KUBELET_CONF_FILE: &'static str = "/etc/kubernetes/kubelet/config";

pub const KUBEPROXY_CONF_FILE: &'static str = "/etc/kubernetes/kube-proxy/kube-proxy.conf";

pub const KUBEPROXY_KUBECONFIG_FILE: &'static str = "/etc/kubernetes/kube-proxy/kubeconfig";

pub const KUBELET_CONFIG_DIR: &'static str = "/etc/kubernetes/kubelet/";

pub const KUBELET_PKI_DIR: &'static str = "/etc/kubernetes/pki/";

pub const KUBERNETES_MANIFESTS_DIR: &'static str = "/etc/kubernetes/manifests/";

/// What reading a setting from the kubelet configuration file gave.
pub enum KubeletConfigRead<T> {
    /// The file could not be read.
    Unreadable,
    /// The file was read, but its YAML does not hold the setting in the expected form.
    Unparsable,
    /// The setting as the file holds it.
    Parsed(T),
}

/// `readOnlyPort`.
#[derive(Clone, Copy, Debug)]
pub struct ReadOnlyPortConfig {
    pub read_only_port: i32,
}

/// `authentication.anonymous.enabled`.
#[derive(Clone, Copy, Debug)]
pub struct AnonymousAuthConfig {
    pub enabled: bool,
}

/// `authentication.x509.clientCAFile`.
#[derive(Clone, Debug)]
pub struct ClientCaConfig {
    pub client_ca_file: String,
}

/// `tlsPrivateKeyFile`.
#[derive(Clone, Debug)]
pub struct PrivateKeyConfig {
    pub tls_private_key_file: String,
}

/// `tlsCertFile`.
#[derive(Clone, Debug)]
pub struct CertFileConfig {
    pub tls_cert_file: String,
}

/// `authorization.mode`.
#[derive(Clone, Debug)]
pub struct AuthorizationConfig {
    pub mode: String,
}

/// `staticPodPath`.
#[derive(Clone, Debug)]
pub struct StaticPodPathConfig {
    pub static_pod_path: String,
}

/// `protectKernelDefaults`.
#[derive(Clone, Copy, Debug)]
pub struct KernelProtectionConfig {
    pub protect_kernel_defaults: bool,
}

/// `streamingConnectionIdleTimeout`.
#[derive(Clone, Debug)]
pub struct IdleTimeoutConfig {
    pub streaming_connection_idle_timeout: String,
}

/// The explanation when the kubelet configuration file cannot be read.
pub open spec fn unreadable_error() -> Seq<char> {
    "unable to read '/etc/kubernetes/kubelet/config'"@
}

/// The explanation when the kubelet configuration cannot be decoded.
pub open spec fn unparsable_error() -> Seq<char> {
    "unable to parse kubelet config"@
}

/// The result for a configuration file that could not be read.
pub fn unreadable_result() -> (r: CheckerResult)
    ensures
        r@ == (CheckStatus::SKIP, unreadable_error()),
{
    outcome(CheckStatus::SKIP, "unable to read '/etc/kubernetes/kubelet/config'")
}

/// The result for a configuration that could not be decoded.
pub fn unparsable_result() -> (r: CheckerResult)
    ensures
        r@ == (CheckStatus::SKIP, unparsable_error()),
{
    outcome(CheckStatus::SKIP, "unable to parse kubelet config")
}

/// The readOnlyPort check: the port must be 0.
pub open spec fn readonly_port_verdict(config: KubeletConfigRead<ReadOnlyPortConfig>) -> (
    CheckStatus,
    Seq<char>,
) {
    match config {
        KubeletConfigRead::Unreadable => (CheckStatus::SKIP, unreadable_error()),
        KubeletConfigRead::Unparsable => (CheckStatus::SKIP, unparsable_error()),
        KubeletConfigRead::Parsed(c) => if c.read_only_port != 0 {
            (CheckStatus::FAIL, "Kubelet readOnlyPort not set to 0"@)
        } else {
            (CheckStatus::PASS, Seq::empty())
        },
    }
}

/// Checks that the kubelet's read-only port is disabled.
pub fn ensure_kubelet_readonly_port_disabled(config: &KubeletConfigRead<ReadOnlyPortConfig>) -> (r:
    CheckerResult)
    ensures
        r@ == readonly_port_verdict(*config),
{
    match config {
        KubeletConfigRead::Unreadable => unreadable_result(),
        KubeletConfigRead::Unparsable => unparsable_result(),
        KubeletConfigRead::Parsed(c) => if c.read_only_port != 0 {
            outcome(CheckStatus::FAIL, "Kubelet readOnlyPort not set to 0")
        } else {
            passed()
        },
    }
}

/// The anonymous authentication check: it must be disabled.
pub open spec fn anonymous_auth_verdict(config: KubeletConfigRead<AnonymousAuthConfig>) -> (
    CheckStatus,
    Seq<char>,
) {
    match config {
        KubeletConfigRead::Unreadable => (CheckStatus::SKIP, unreadable_error()),
        KubeletConfigRead::Unparsable => (CheckStatus::SKIP, unparsable_error()),
        KubeletConfigRead::Parsed(c) => if c.enabled {
            (CheckStatus::FAIL, "anonymous authentication is configured"@)
        } else {
            (CheckStatus::PASS, Seq::empty())
        },
    }
}

/// Checks that the kubelet refuses anonymous requests.
pub fn ensure_kubelet_anonymous_auth_disabled(config: &KubeletConfigRead<AnonymousAuthConfig>) -> (r:
    CheckerResult)
    ensures
        r@ == anonymous_auth_verdict(*config),
{
    match config {
        KubeletConfigRead::Unreadable => unreadable_result(),
        KubeletConfigRead::Unparsable => unparsable_result(),
        KubeletConfigRead::Parsed(c) => if c.enabled {
            outcome(CheckStatus::FAIL, "anonymous authentication is configured")
        } else {
            passed()
        },
    }
}

/// The result for a configured file path: passed when the path is set and exists
/// (`present` is what asking whether it exists gave), failed with `error` otherwise.
pub open spec fn configured_file_verdict(path: Seq<char>, present: bool, error: Seq<char>) -> (
    CheckStatus,
    Seq<char>,
) {
    if path.len() != 0 && present {
        (CheckStatus::PASS, Seq::empty())
    } else {
        (CheckStatus::FAIL, error)
    }
}

/// Checks that `path` is set and exists. The system is asked only when it is set.
pub fn configured_file_exists<S: SystemAccess>(sac: &S, path: &str, error: &str) -> (r:
    CheckerResult)
    ensures
        path@.len() == 0 ==> r@ == configured_file_verdict(path@, false, error@),
        path@.len() != 0 ==> exists|present: bool|
            #[trigger] sac.presence_outcome(path@, present) && r@ == configured_file_verdict(
                path@,
                present,
                error@,
            ),
{
    if !path.is_empty() {
        let present = sac.path_exists(path);
        if present {
            passed()
        } else {
            outcome(CheckStatus::FAIL, error)
        }
    } else {
        outcome(CheckStatus::FAIL, error)
    }
}

/// Checks that the kubelet verifies clients against a certificate authority file
/// that exists.
pub fn ensure_kubelet_client_ca_configured<S: SystemAccess>(
    sac: &S,
    config: &KubeletConfigRead<ClientCaConfig>,
) -> (r: CheckerResult)
    ensures
        match *config {
            KubeletConfigRead::Unreadable => r@ == (CheckStatus::SKIP, unreadable_error()),
            KubeletConfigRead::Unparsable => r@ == (CheckStatus::SKIP, unparsable_error()),
            KubeletConfigRead::Parsed(c) => if c.client_ca_file@.len() == 0 {
                r@ == configured_file_verdict(
                    c.client_ca_file@,
                    false,
                    "CA file not set to expected path"@,
                )
            } else {
                exists|present: bool|
                    #[trigger] sac.presence_outcome(c.client_ca_file@, present) && r@
                        == configured_file_verdict(
                        c.client_ca_file@,
                        present,
                        "CA file not set to expected path"@,
                    )
            },
        },
{
    match config {
        KubeletConfigRead::Unreadable => unreadable_result(),
        KubeletConfigRead::Unparsable => unparsable_result(),
        KubeletConfigRead::Parsed(c) => configured_file_exists(
            sac,
            c.client_ca_file.as_str(),
            "CA file not set to expected path",
        ),
    }
}

/// Checks that the kubelet's TLS private key file is set and exists. A configuration
/// that does not set it passes: the kubelet then bootstraps its serving certificate.
pub fn ensure_kubelet_private_key_set<S: SystemAccess>(
    sac: &S,
    config: &KubeletConfigRead<PrivateKeyConfig>,
) -> (r: CheckerResult)
    ensures
        match *config {
            KubeletConfigRead::Unreadable => r@ == (CheckStatus::SKIP, unreadable_error()),
            KubeletConfigRead::Unparsable => r@ == (CheckStatus::PASS, Seq::<char>::empty()),
            KubeletConfigRead::Parsed(c) => if c.tls_private_key_file@.len() == 0 {
                r@ == configured_file_verdict(
                    c.tls_private_key_file@,
                    false,
                    "TLS private key files not set to expected path"@,
                )
            } else {
                exists|present: bool|
                    #[trigger] sac.presence_outcome(c.tls_private_key_file@, present) && r@
                        == configured_file_verdict(
                        c.tls_private_key_file@,
                        present,
                        "TLS private key files not set to expected path"@,
                    )
            },
        },
{
    match config {
        KubeletConfigRead::Unreadable => unreadable_result(),
        KubeletConfigRead::Unparsable => passed(),
        KubeletConfigRead::Parsed(c) => configured_file_exists(
            sac,
            c.tls_private_key_file.as_str(),
            "TLS private key files not set to expected path",
        ),
    }
}

/// Checks that the kubelet's TLS certificate file is set and exists. A configuration
/// that does not set it passes: the kubelet then bootstraps its serving certificate.
pub fn ensure_kubelet_private_cert_set<S: SystemAccess>(
    sac: &S,
    config: &KubeletConfigRead<CertFileConfig>,
) -> (r: CheckerResult)
    ensures
        match *config {
            KubeletConfigRead::Unreadable => r@ == (CheckStatus::SKIP, unreadable_error()),
            KubeletConfigRead::Unparsable => r@ == (CheckStatus::PASS, Seq::<char>::empty()),
            KubeletConfigRead::Parsed(c) => if c.tls_cert_file@.len() == 0 {
                r@ == configured_file_verdict(
                    c.tls_cert_file@,
                    false,
                    "TLS private cert file not set to expected path"@,
                )
            } else {
                exists|present: bool|
                    #[trigger] sac.presence_outcome(c.tls_cert_file@, present) && r@
                        == configured_file_verdict(
                        c.tls_cert_file@,
                        present,
                        "TLS private cert file not set to expected path"@,
                    )
            },
        },
{
    match config {
        KubeletConfigRead::Unreadable => unreadable_result(),
        KubeletConfigRead::Unparsable => passed(),
        KubeletConfigRead::Parsed(c) => configured_file_exists(
            sac,
            c.tls_cert_file.as_str(),
            "TLS private cert file not set to expected path",
        ),
    }
}

} // verus!
