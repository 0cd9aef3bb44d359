use runtime_supervisor::health::{
    health_request, local_server_host, probe_response_healthy, HEALTH_TIMEOUT_MS,
    LOCAL_SERVER_PORT, PROBE_INTERVAL_MS, PROBE_TIMEOUT_MS,
};
use runtime_supervisor::launch::{
    bundled_binary_resource_path, bundled_node_binary_name, bundled_server_script_name,
    combined_launch_failure, fallback_runtime_command, fallback_warning,
    legacy_server_script_name, port_env_aliases, HostArch, HostOs, ResolutionError,
};

#[test]
fn health_request_is_the_fixed_get() {
    assert_eq!(
        health_request(),
        "GET /api/health HTTP/1.1\r\nHost: 127.0.0.1:8787\r\nConnection: close\r\n\r\n"
    );
}

#[test]
fn health_endpoint_constants() {
    assert_eq!(local_server_host(), "127.0.0.1");
    assert_eq!(LOCAL_SERVER_PORT, 8787);
    assert_eq!(PROBE_TIMEOUT_MS, 450);
    assert_eq!(PROBE_INTERVAL_MS, 140);
    assert_eq!(HEALTH_TIMEOUT_MS, 7000);
}

#[test]
fn http11_200_response_is_healthy() {
    assert!(probe_response_healthy(b"HTTP/1.1 200 OK\r\ncontent-length: 2\r\n\r\nok"));
}

#[test]
fn http10_200_response_is_healthy() {
    assert!(probe_response_healthy(b"HTTP/1.0 200 OK\r\n\r\n"));
}

#[test]
fn bare_status_line_is_healthy() {
    assert!(probe_response_healthy(b"HTTP/1.1 200"));
}

#[test]
fn non_200_response_is_unhealthy() {
    assert!(!probe_response_healthy(b"HTTP/1.1 404 Not Found\r\n\r\n"));
    assert!(!probe_response_healthy(b"HTTP/1.1 500 Internal Server Error\r\n\r\n"));
}

#[test]
fn other_http_version_is_unhealthy() {
    assert!(!probe_response_healthy(b"HTTP/2 200\r\n\r\n"));
}

#[test]
fn truncated_response_is_unhealthy() {
    assert!(!probe_response_healthy(b"HTTP/1.1 20"));
    assert!(!probe_response_healthy(b""));
}

#[test]
fn garbage_response_is_unhealthy() {
    assert!(!probe_response_healthy(b"hello world, this is no HTTP at all"));
}

#[test]
fn bundled_binary_known_platforms() {
    assert_eq!(
        bundled_node_binary_name(HostOs::MacOs, HostArch::Aarch64),
        Ok("neural-os-node-aarch64-apple-darwin")
    );
    assert_eq!(
        bundled_node_binary_name(HostOs::MacOs, HostArch::X86_64),
        Ok("neural-os-node-x86_64-apple-darwin")
    );
}

#[test]
fn bundled_binary_unsupported_os() {
    assert_eq!(
        bundled_node_binary_name(HostOs::Linux, HostArch::Aarch64),
        Err(ResolutionError::UnsupportedOs)
    );
    assert_eq!(
        bundled_node_binary_name(HostOs::Windows, HostArch::X86_64),
        Err(ResolutionError::UnsupportedOs)
    );
    assert_eq!(
        bundled_node_binary_name(HostOs::Other, HostArch::Other),
        Err(ResolutionError::UnsupportedOs)
    );
}

#[test]
fn bundled_binary_unsupported_arch() {
    assert_eq!(
        bundled_node_binary_name(HostOs::MacOs, HostArch::Other),
        Err(ResolutionError::UnsupportedArch)
    );
}

#[test]
fn artifact_names() {
    assert_eq!(bundled_server_script_name(), "sidecar/server.bundle.cjs");
    assert_eq!(legacy_server_script_name(), "server.mjs");
    assert_eq!(fallback_runtime_command(), "node");
    assert_eq!(
        bundled_binary_resource_path("neural-os-node-aarch64-apple-darwin"),
        "binaries/neural-os-node-aarch64-apple-darwin"
    );
}

#[test]
fn port_env_aliases_carry_both_names() {
    let (a, b) = port_env_aliases();
    assert_eq!(a, "NEURAL_OS_SERVER_PORT");
    assert_eq!(b, "NEURAL_COMPUTER_SERVER_PORT");
}

#[test]
fn fallback_warning_text_exact() {
    assert_eq!(
        fallback_warning("spawn denied"),
        "Bundled sidecar launch failed, using host node fallback: spawn denied"
    );
}

#[test]
fn combined_failure_names_both_causes() {
    let msg = combined_launch_failure("no binary", "node missing");
    assert_eq!(
        msg,
        "preferred sidecar launch failed: no binary; fallback node launch failed: node missing"
    );
    assert!(msg.contains("no binary"));
    assert!(msg.contains("node missing"));
}
