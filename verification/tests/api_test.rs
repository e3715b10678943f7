use std::collections::HashMap;

use proxmox::api::access::realms::RealmsApi;
use proxmox::api::client::{handle_error_response, AttemptOutcome, ClientSettings, RetryAction, RetryConfig, RetryState};
use proxmox::api::common::{ApiResponse, TaskId};
use proxmox::api::nodes::qemu::{QemuConfig, QemuStatus, QemuVmInfo};
use proxmox::number::Number;
use proxmox::api::common::{ApiErrorDetails, ApiQueryParams, PaginationParams, ProxmoxBool};
use proxmox::api::error::ApiError;
use proxmox::api::nodes::qemu::QemuApi;
use proxmox::api::numeric::{parse_u32, parse_u64, string_or_u32_value, string_or_u64_value, IntErrorKind, StringOrU32, StringOrU64};
use proxmox::api::pool::{ConnectionPoolConfig, ConnectionStats};
use proxmox::api::response::ProxmoxResponseHandler;

fn test_settings() -> ClientSettings {
    ClientSettings::new("https://test.example.com:8006/", "test@pve!test=secret", true, RetryConfig::default())
}

#[test]
fn test_qemu_api_new() {
    let client = test_settings();
    let api = QemuApi::new(&client, "node1");
    assert_eq!(api.node, "node1");
}

#[test]
fn test_retry_config() {
    let config = RetryConfig::default();
    assert_eq!(config.max_retries, 3);
    assert_eq!(config.initial_backoff_ms, 100);
    assert_eq!(config.max_backoff_ms, 10000);
    assert_eq!(config.timeout_seconds, 30);
}

#[test]
fn test_proxmox_bool() {
    let b = ProxmoxBool::new(true);
    assert!(b.as_bool());

    let b = ProxmoxBool::from(false);
    assert!(!b.as_bool());

    let b: bool = ProxmoxBool(true).into();
    assert!(b);
}

#[test]
fn test_api_query_params() {
    let params = ApiQueryParams::new()
        .add("foo", "bar")
        .add("baz", 123)
        .add_optional("opt", Some("value"))
        .add_optional("none", None::<String>);

    let query = params.to_query_string();
    assert!(query.contains("foo=bar"));
    assert!(query.contains("baz=123"));
    assert!(query.contains("opt=value"));
    assert!(!query.contains("none="));
}

#[test]
fn test_pagination_params() {
    let params = PaginationParams::new().with_start(100).with_limit(50);
    let query_params = params.to_query_params();
    let query = query_params.to_query_string();
    assert!(query.contains("start=100"));
    assert!(query.contains("limit=50"));
}

#[test]
fn test_connection_pool_config() {
    let config = ConnectionPoolConfig::default();
    assert_eq!(config.max_idle_connections, 10);
    assert_eq!(config.idle_timeout.as_secs(), 90);
    assert_eq!(config.connection_timeout.as_secs(), 10);
    assert_eq!(config.request_timeout.as_secs(), 30);
    assert_eq!(config.tcp_keepalive.unwrap().as_secs(), 30);
}

#[test]
fn test_connection_stats() {
    let mut stats: ConnectionStats<u64> = ConnectionStats::new();
    assert_eq!(stats.total_requests, 0);
    assert_eq!(stats.failed_requests, 0);

    stats.record_request(true, 1);
    stats.record_request(false, 2);

    assert_eq!(stats.total_requests, 2);
    assert_eq!(stats.failed_requests, 1);
    assert!(stats.last_request.is_some());
}

#[test]
fn test_api_error_formatting() {
    let mut field_errors = HashMap::new();
    field_errors.insert("field1".to_string(), vec!["error1".to_string(), "error2".to_string()]);

    let details = ApiErrorDetails {
        errors: Some(vec!["general error".to_string()]),
        field_errors: Some(field_errors),
    };

    let error = ApiError::ApiError {
        status: 400,
        message: "Bad Request".to_string(),
        details: Some(Box::new(details)),
    };

    let error_str = error.message();
    assert!(error_str.contains("HTTP 400"));
    assert!(error_str.contains("Bad Request"));
}

#[test]
fn api_error_texts() {
    assert_eq!(ApiError::RequestError("x".to_string()).message(), "HTTP request failed: x");
    assert_eq!(
        ApiError::ApiError { status: 404, message: "gone".to_string(), details: None }.message(),
        "API returned error (HTTP 404): gone"
    );
    assert_eq!(ApiError::ParseError("bad".to_string()).message(), "Failed to parse response: bad");
    assert_eq!(ApiError::AuthError.message(), "Authentication failed");
    assert_eq!(ApiError::Timeout(30).message(), "Request timeout after 30 seconds");
    assert_eq!(ApiError::RateLimited.message(), "Too many requests, rate limited");
    assert_eq!(ApiError::ServiceUnavailable.message(), "Service unavailable, retry later");
}

#[test]
fn client_settings_trim_endpoint_and_sign() {
    let s = test_settings();
    assert_eq!(s.base_url, "https://test.example.com:8006");
    assert_eq!(s.auth_header, "PVEAPIToken=test@pve!test=secret");
    assert_eq!(s.url("/api2/json/version"), "https://test.example.com:8006/api2/json/version");
}

#[test]
fn qemu_paths() {
    let client = test_settings();
    let api = QemuApi::new(&client, "node1");
    assert_eq!(api.list_path(), "/api2/json/nodes/node1/qemu");
    assert_eq!(api.config_path(100), "/api2/json/nodes/node1/qemu/100/config");
    assert_eq!(api.delete_path(100, true), "/api2/json/nodes/node1/qemu/100?purge=1");
    assert_eq!(api.delete_path(100, false), "/api2/json/nodes/node1/qemu/100");
    assert_eq!(api.start_path(7), "/api2/json/nodes/node1/qemu/7/status/start");
    assert_eq!(api.stop_path(7), "/api2/json/nodes/node1/qemu/7/status/stop");
    assert_eq!(api.status_path(7), "/api2/json/nodes/node1/qemu/7/status/current");
}

#[test]
fn realm_paths() {
    let client = test_settings();
    let api = RealmsApi::new(&client);
    assert_eq!(api.collection_path(), "/api2/json/access/domains");
    assert_eq!(api.realm_path("my realm"), "/api2/json/access/domains/my realm");
}

#[test]
fn query_string_is_url_encoded() {
    let q = ApiQueryParams::new().add("name", "a b&c").to_query_string();
    assert_eq!(q, "?name=a%20b%26c");
    assert_eq!(ApiQueryParams::new().to_query_string(), "");
    let q = ApiQueryParams::new().add("ü", "é").to_query_string();
    assert_eq!(q, "?ü=%C3%A9");
}

#[test]
fn retry_backs_off_then_fails() {
    let config = RetryConfig::default();
    let (mut state, first) = RetryState::start();
    assert!(matches!(first, RetryAction::Send { wait_ms: None }));
    let mut waits = Vec::new();
    for _ in 0..3 {
        match state.on_outcome(&config, AttemptOutcome::Response { status: 503 }) {
            RetryAction::Send { wait_ms: Some(w) } => waits.push(w),
            _ => panic!("expected a retry"),
        }
    }
    assert_eq!(waits, vec![100, 200, 400]);
    match state.on_outcome(&config, AttemptOutcome::Response { status: 503 }) {
        RetryAction::Fail(ApiError::ServiceUnavailable) => {}
        _ => panic!("expected failure"),
    }
}

#[test]
fn retry_backoff_is_capped() {
    let config = RetryConfig { max_retries: 10, initial_backoff_ms: 1000, max_backoff_ms: 5000, timeout_seconds: 30 };
    assert_eq!(config.backoff_ms(1), 1000);
    assert_eq!(config.backoff_ms(3), 4000);
    assert_eq!(config.backoff_ms(4), 5000);
    assert_eq!(config.backoff_ms(9), 5000);
}

#[test]
fn later_retries_wait_at_least_as_long() {
    let config = RetryConfig::default();
    let waits: Vec<u64> = (1..=config.max_retries).map(|a| config.backoff_ms(a)).collect();
    assert_eq!(waits, vec![100, 200, 400]);
    let capped = RetryConfig { max_retries: 8, initial_backoff_ms: 300, max_backoff_ms: 2000, timeout_seconds: 30 };
    let waits: Vec<u64> = (1..=capped.max_retries).map(|a| capped.backoff_ms(a)).collect();
    assert_eq!(waits, vec![300, 600, 1200, 2000, 2000, 2000, 2000, 2000]);
    assert!(waits.windows(2).all(|w| w[0] <= w[1]));
}

#[test]
fn retry_unauthorized_is_final() {
    let config = RetryConfig::default();
    let (mut state, _) = RetryState::start();
    match state.on_outcome(&config, AttemptOutcome::Response { status: 401 }) {
        RetryAction::Fail(ApiError::AuthError) => {}
        _ => panic!("401 is not retried"),
    }
    assert_eq!(state.attempt, 0);
    assert!(matches!(state.on_outcome(&config, AttemptOutcome::Response { status: 204 }), RetryAction::ParseSuccess));
    assert!(matches!(state.on_outcome(&config, AttemptOutcome::Response { status: 404 }), RetryAction::HandleErrorResponse));
    match state.on_outcome(&config, AttemptOutcome::TransportError { timeout: true, connect_or_request: false, text: String::new() }) {
        RetryAction::Send { wait_ms: Some(100) } => {}
        _ => panic!("a timeout is retried"),
    }
    match state.on_outcome(&config, AttemptOutcome::TransportError { timeout: false, connect_or_request: false, text: "boom".to_string() }) {
        RetryAction::Fail(ApiError::RequestError(t)) => assert_eq!(t, "boom"),
        _ => panic!("other transport errors fail"),
    }
}

#[test]
fn response_handler_errors() {
    assert!(matches!(ProxmoxResponseHandler::extract_error(401, "x".to_string(), None), ApiError::AuthError));
    assert!(matches!(ProxmoxResponseHandler::extract_error(429, "x".to_string(), None), ApiError::RateLimited));
    assert!(matches!(ProxmoxResponseHandler::extract_error(502, "x".to_string(), None), ApiError::ServiceUnavailable));
    match ProxmoxResponseHandler::extract_empty_response(400, None, None) {
        Err(ApiError::ApiError { status, message, .. }) => {
            assert_eq!(status, 400);
            assert_eq!(message, "Unknown error");
        }
        _ => panic!("expected an API error"),
    }
    assert!(ProxmoxResponseHandler::extract_empty_response(200, None, None).is_ok());
    match ProxmoxResponseHandler::extract_response::<u32>(None, Err("eof".to_string())) {
        Err(ApiError::ParseError(m)) => assert_eq!(m, "Failed to parse response: eof"),
        _ => panic!("expected a parse error"),
    }
}

#[test]
fn parse_unsigned_text() {
    assert_eq!(parse_u32("4294967295"), Ok(u32::MAX));
    assert_eq!(parse_u32("4294967296"), Err(IntErrorKind::PosOverflow));
    assert_eq!(parse_u32("+12"), Ok(12));
    assert_eq!(parse_u32("+"), Err(IntErrorKind::InvalidDigit));
    assert_eq!(parse_u32("-1"), Err(IntErrorKind::InvalidDigit));
    assert_eq!(parse_u32(""), Err(IntErrorKind::Empty));
    assert_eq!(parse_u32("12a"), Err(IntErrorKind::InvalidDigit));
    assert_eq!(parse_u32("99999999999x"), Err(IntErrorKind::PosOverflow));
    assert_eq!(parse_u64("18446744073709551615"), Ok(u64::MAX));
    assert_eq!(parse_u64("007"), Ok(7));
    for s in ["0", "42", "+7", "", "+", "-3", "1x", "4294967296", "000123"] {
        assert_eq!(parse_u32(s).ok(), s.parse::<u32>().ok());
    }
}

#[test]
fn parse_decimal_round_trip() {
    for n in [0u32, 1, 9, 10, 100, 65535, u32::MAX] {
        assert_eq!(parse_u32(&n.to_string()), Ok(n));
    }
}

#[test]
fn numbers_as_strings_or_numbers() {
    assert_eq!(string_or_u64_value(None), Ok(None));
    assert_eq!(string_or_u64_value(Some(StringOrU64::U64(5))), Ok(Some(5)));
    assert_eq!(string_or_u64_value(Some(StringOrU64::String("2048".to_string()))), Ok(Some(2048)));
    assert_eq!(
        string_or_u64_value(Some(StringOrU64::String("lots".to_string()))),
        Err("invalid digit found in string".to_string())
    );
    assert_eq!(string_or_u32_value(Some(StringOrU32::U32(3))), Ok(Some(3)));
    assert_eq!(
        string_or_u32_value(Some(StringOrU32::String("".to_string()))),
        Err("cannot parse integer from empty string".to_string())
    );
    assert_eq!(
        string_or_u32_value(Some(StringOrU32::String("4294967296".to_string()))),
        Err("number too large to fit in target type".to_string())
    );
}

#[test]
fn a_path_carries_its_query_parameters() {
    let params = ApiQueryParams::new().add("type", "qemu").add("full", 1u32);
    assert_eq!(
        proxmox::api::client::path_with_params("/api2/json/cluster/resources", &params),
        "/api2/json/cluster/resources?type=qemu&full=1"
    );
    assert_eq!(proxmox::api::client::path_with_params("/api2/json/nodes", &ApiQueryParams::new()), "/api2/json/nodes");
}


fn ok<T>(r: Result<T, ApiError>) -> T {
    match r {
        Ok(v) => v,
        Err(e) => panic!("{}", e.message()),
    }
}

fn num(x: f64) -> Number {
    Number { bits: x.to_bits(), text: format!("{}", x) }
}

fn vm_info(vmid: u32, name: Option<&str>, status: &str) -> QemuVmInfo {
    QemuVmInfo {
        vmid,
        name: name.map(|n| n.to_string()),
        status: status.to_string(),
        cpu: None,
        cpus: None,
        maxdisk: None,
        maxmem: None,
        mem: None,
        netin: None,
        netout: None,
        disk: None,
        diskread: None,
        diskwrite: None,
        pid: None,
        qmpstatus: None,
        tags: None,
        uptime: None,
    }
}

/// The data of a successful response that holds `data` in its envelope.
fn data_of<T>(data: T) -> Result<T, ApiError> {
    ProxmoxResponseHandler::extract_response(Some(ApiResponse { data }), Err(String::new()))
}

fn upid(kind: &str) -> TaskId {
    TaskId(format!("UPID:node1:00001234:00000000:5F000000:{}:100:root@pam:", kind))
}

#[test]
fn test_list_vms_empty() {
    let client = test_settings();
    let api = QemuApi::new(&client, "node1");
    assert_eq!(api.list_path(), "/api2/json/nodes/node1/qemu");
    let result = data_of(Vec::<QemuVmInfo>::new());
    assert!(result.is_ok());
    let vms = ok(result);
    assert!(vms.is_empty());
}

#[test]
fn test_list_vms_with_data() {
    let client = test_settings();
    let api = QemuApi::new(&client, "node1");
    assert_eq!(api.list_path(), "/api2/json/nodes/node1/qemu");
    let mut first = vm_info(100, Some("test-vm"), "running");
    first.cpu = Some(num(0.5));
    first.cpus = Some(2);
    first.maxmem = Some(2147483648);
    first.mem = Some(1073741824);
    let result = data_of(vec![first, vm_info(101, None, "stopped")]);
    assert!(result.is_ok());
    let vms = ok(result);
    assert_eq!(vms.len(), 2);
    assert_eq!(vms[0].vmid, 100);
    assert_eq!(vms[0].name, Some("test-vm".to_string()));
    assert_eq!(vms[0].status, "running");
    assert_eq!(vms[0].cpu.as_ref().map(|c| f64::from_bits(c.bits)), Some(0.5));
    assert_eq!(vms[0].cpus, Some(2));
    assert_eq!(vms[1].vmid, 101);
    assert_eq!(vms[1].name, None);
    assert_eq!(vms[1].status, "stopped");
}

#[test]
fn test_get_config() {
    let client = test_settings();
    let api = QemuApi::new(&client, "node1");
    assert_eq!(api.config_path(100), "/api2/json/nodes/node1/qemu/100/config");
    let cores = string_or_u32_value(Some(StringOrU32::U32(2))).unwrap();
    let memory = string_or_u64_value(Some(StringOrU64::String("2048".to_string()))).unwrap();
    let mut config = QemuConfig {
        acpi: None, agent: None, args: None, autostart: None, balloon: None, bios: None, boot: None,
        bootdisk: None, cdrom: None, cores, cpu: Some("host".to_string()), cpulimit: None, cpuunits: None,
        description: None, digest: None, efidisk0: None, freeze: None, hookscript: None, hotplug: None,
        hugepages: None, ide0: None, ide1: None, ide2: None, ide3: None, kvm: None, localtime: None,
        lock: None, machine: None, memory, migrate_downtime: None, migrate_speed: None,
        name: Some("test-vm".to_string()), nameserver: None, net0: None, net1: None, net2: None, net3: None,
        numa: None, numa0: None, numa1: None, onboot: None, ostype: Some("l26".to_string()), protection: None,
        reboot: None, sata0: None, sata1: None, sata2: None, sata3: None, sata4: None, sata5: None, scsi0: None,
        scsi1: None, scsi2: None, scsi3: None, scsi4: None, scsi5: None, scsi6: None, scsi7: None, scsihw: None,
        searchdomain: None, serial0: None, serial1: None, serial2: None, serial3: None, shares: None,
        smbios1: None, smp: None, sockets: Some(1), startup: None, startdate: None, tablet: None, tags: None,
        template: None, unused0: None, unused1: None, unused2: None, unused3: None, usb0: None, usb1: None,
        usb2: None, usb3: None, vcpus: None, vga: None, virtio0: None, virtio1: None, virtio2: None,
        virtio3: None, virtio4: None, virtio5: None, virtio6: None, virtio7: None, virtio8: None,
        virtio9: None, virtio10: None, virtio11: None, virtio12: None, virtio13: None, virtio14: None,
        virtio15: None, vmgenid: None, vmstatestorage: None, watchdog: None,
    };
    config = ok(data_of(config));
    assert_eq!(config.name, Some("test-vm".to_string()));
    assert_eq!(config.cores, Some(2));
    assert_eq!(config.memory, Some(2048));
    assert_eq!(config.sockets, Some(1));
    assert_eq!(config.cpu, Some("host".to_string()));
    assert_eq!(config.ostype, Some("l26".to_string()));
}

#[test]
fn test_create_vm() {
    let client = test_settings();
    let api = QemuApi::new(&client, "node1");
    assert_eq!(api.list_path(), "/api2/json/nodes/node1/qemu");
    let result = data_of(upid("qmcreate"));
    assert!(result.is_ok());
    let task_id = ok(result);
    assert!(task_id.0.starts_with("UPID:"));
}

#[test]
fn test_update_config() {
    let client = test_settings();
    let api = QemuApi::new(&client, "node1");
    assert_eq!(api.config_path(100), "/api2/json/nodes/node1/qemu/100/config");
    let result = data_of(None::<TaskId>);
    assert!(result.is_ok());
    assert!(ok(result).is_none());
}

#[test]
fn test_delete_vm() {
    let client = test_settings();
    let api = QemuApi::new(&client, "node1");
    assert_eq!(api.delete_path(100, true), "/api2/json/nodes/node1/qemu/100?purge=1");
    let result = data_of(upid("qmdestroy"));
    assert!(result.is_ok());
    let task_id = ok(result);
    assert!(task_id.0.starts_with("UPID:"));
}

#[test]
fn test_delete_vm_no_purge() {
    let client = test_settings();
    let api = QemuApi::new(&client, "node1");
    assert_eq!(api.delete_path(100, false), "/api2/json/nodes/node1/qemu/100");
    let result = data_of(upid("qmdestroy"));
    assert!(result.is_ok());
    let task_id = ok(result);
    assert!(task_id.0.starts_with("UPID:"));
}

#[test]
fn test_start_vm() {
    let client = test_settings();
    let api = QemuApi::new(&client, "node1");
    assert_eq!(api.start_path(100), "/api2/json/nodes/node1/qemu/100/status/start");
    let result = data_of(upid("qmstart"));
    assert!(result.is_ok());
    let task_id = ok(result);
    assert!(task_id.0.starts_with("UPID:"));
}

#[test]
fn test_stop_vm() {
    let client = test_settings();
    let api = QemuApi::new(&client, "node1");
    assert_eq!(api.stop_path(100), "/api2/json/nodes/node1/qemu/100/status/stop");
    let result = data_of(upid("qmstop"));
    assert!(result.is_ok());
    let task_id = ok(result);
    assert!(task_id.0.starts_with("UPID:"));
}

#[test]
fn test_get_status() {
    let client = test_settings();
    let api = QemuApi::new(&client, "node1");
    assert_eq!(api.status_path(100), "/api2/json/nodes/node1/qemu/100/status/current");
    let status = QemuStatus {
        status: "running".to_string(),
        ha: None,
        qmpstatus: None,
        pid: Some(1234),
        uptime: Some(3600),
        cpu: Some(num(0.5)),
        cpus: Some(2),
        mem: Some(1073741824),
        maxmem: Some(2147483648),
        disk: None,
        maxdisk: None,
        diskread: None,
        diskwrite: None,
        netin: None,
        netout: None,
        ballooninfo: None,
        running_qemu: None,
        running_machine: None,
        blockstat: None,
        nics: None,
    };
    let result = data_of(status);
    assert!(result.is_ok());
    let status = ok(result);
    assert_eq!(status.status, "running");
    assert_eq!(status.pid, Some(1234));
    assert_eq!(status.uptime, Some(3600));
    assert_eq!(status.cpu.as_ref().map(|c| f64::from_bits(c.bits)), Some(0.5));
    assert_eq!(status.cpus, Some(2));
    assert_eq!(status.mem, Some(1073741824));
    assert_eq!(status.maxmem, Some(2147483648));
}

#[test]
fn test_api_error_handling() {
    let client = test_settings();
    let api = QemuApi::new(&client, "node1");
    assert_eq!(api.config_path(100), "/api2/json/nodes/node1/qemu/100/config");
    let body = r#"{"data": null, "errors": {"vmid": "VM 100 not found"}}"#;
    let config = RetryConfig::default();
    let (mut state, _) = RetryState::start();
    let result: Result<QemuConfig, ApiError> = match state.on_outcome(&config, AttemptOutcome::Response { status: 404 }) {
        RetryAction::HandleErrorResponse => Err(handle_error_response(404, Some(body.to_string()), None)),
        _ => panic!("a 404 is read as an error response"),
    };
    assert!(result.is_err());
    if let Err(e) = result {
        assert!(e.message().contains("404"));
    }
}

#[test]
fn a_retry_waits_only_when_its_backoff_fits() {
    let config = RetryConfig::default();
    assert!(config.can_back_off(1) && config.can_back_off(3));
    assert!(!config.can_back_off(0) && !config.can_back_off(65));
    let huge = RetryConfig { max_retries: 100, initial_backoff_ms: u64::MAX, max_backoff_ms: 10, timeout_seconds: 30 };
    assert!(huge.can_back_off(1));
    assert!(!huge.can_back_off(2));
    assert!(proxmox::api::client::is_retryable(&config, &AttemptOutcome::Response { status: 503 }));
    assert!(proxmox::api::client::is_retryable(&config, &AttemptOutcome::Response { status: 429 }));
    assert!(!proxmox::api::client::is_retryable(&config, &AttemptOutcome::Response { status: 404 }));
    assert!(proxmox::api::client::is_retryable(&config, &AttemptOutcome::TransportError { timeout: true, connect_or_request: false, text: String::new() }));
    let (mut state, _) = RetryState::start();
    match state.on_outcome(&huge, AttemptOutcome::Response { status: 503 }) {
        RetryAction::Send { wait_ms: Some(w) } => assert_eq!(w, 10),
        _ => panic!("the first retry of a long retry list waits its capped backoff"),
    }
}
