use ais_common::common::AppStatus;
use ais_common::directive::RestartPolicy;
use ais_common::systemd::create_service_file;
use ais_common::systemd::should_restart;
use ais_common::systemd::summarize_services;
use ais_common::systemd::Memory;
use ais_common::systemd::ProcessInfo;
use ais_common::systemd::Services;
use ais_common::systemd::Status;
use ais_common::systemd::SubProcesses;

#[test]
fn test_services_display() {
    assert_eq!(Services::PhpProcessor.unit_name(), "php7.4-fpm.service");
    assert_eq!(Services::WebServer.unit_name(), "apache2.service");
    assert_eq!(Services::SshServer.unit_name(), "sshd.service");
    assert_eq!(Services::Monitor.unit_name(), "netdata.service");
    assert_eq!(Services::Firewall.unit_name(), "ufw.service");
    assert_eq!(Services::Locker.unit_name(), "dusad.service");
}

#[test]
fn test_status_display() {
    assert_eq!(Status::Running.label(), "active");
    assert_eq!(Status::Stopped.label(), "stopped");
    assert_eq!(Status::Error.label(), "Error occurred while checking");
}

#[test]
fn test_memory_display() {
    assert_eq!(Memory::MemoryConsumed("2GB".to_string()).label(), "2GB");
}

#[test]
fn test_subprocesses_display() {
    assert_eq!(SubProcesses::Pid(123).label(), "123");
    assert_eq!(SubProcesses::Tasks(456).label(), "456");
}

fn info(service: Services, status: Status) -> ProcessInfo {
    ProcessInfo {
        service: service.unit_name().to_string(),
        refered: service,
        status,
        memory: Memory::MemoryConsumed("0B".to_string()),
        children: SubProcesses::Pid(0),
        timestamp: "2026-01-01 00:00:00".to_string(),
        optional: false,
    }
}

#[test]
fn summarize_all_running() {
    let infos = vec![
        info(Services::WebServer, Status::Running),
        info(Services::SshServer, Status::Running),
    ];
    assert_eq!(summarize_services(&infos), AppStatus::Running);
}

#[test]
fn summarize_one_stopped() {
    let infos = vec![
        info(Services::WebServer, Status::Running),
        info(Services::Firewall, Status::Stopped),
    ];
    assert_eq!(summarize_services(&infos), AppStatus::Warning);
}

#[test]
fn restart_only_when_changed_and_exists() {
    assert!(should_restart(true, true));
    assert!(!should_restart(true, false));
    assert!(!should_restart(false, true));
    assert!(!should_restart(false, false));
}

#[test]
fn service_file_with_pre_command() {
    let unit = create_service_file(
        "/usr/bin/node server.js",
        Some("/usr/bin/npm run build"),
        "Ais project id /var/www/ais/abc12345",
        "/var/www/ais/abc12345",
        "www-data",
        "www-data",
        &RestartPolicy::OnFailure { max_burst_limit: 3, retry_after_minutes: 5 },
        true,
    );
    let expected = "[Unit]\nDescription=Ais project id /var/www/ais/abc12345\nAfter=network.target\n\n[Service]\nPermissionsStartOnly=true\nExecStart=/usr/bin/node server.js\nExecStartPre=/usr/bin/npm run build\nRestart=on-failure\nStartLimitBurst=3\nRestartSec=5m\nUser=www-data\nGroup=www-data\nEnvironment=PATH=/usr/bin:/usr/local/bin\nWorkingDirectory=/var/www/ais/abc12345\n\n[Install]\nWantedBy=multi-user.target\n";
    assert_eq!(unit, expected);
}

#[test]
fn service_file_without_pre_command() {
    let unit = create_service_file(
        "/usr/bin/node server.js",
        None,
        "Ais project id /var/www/ais/abc12345",
        "/var/www/ais/abc12345",
        "www-data",
        "www-data",
        &RestartPolicy::Always,
        false,
    );
    let expected = "[Unit]\nDescription=Ais project id /var/www/ais/abc12345\nAfter=network.target\n\n[Service]\nPermissionsStartOnly=false\nExecStart=/usr/bin/node server.js\nRestart=always\nUser=www-data\nGroup=www-data\nEnvironment=PATH=/usr/bin:/usr/local/bin\nWorkingDirectory=/var/www/ais/abc12345\n\n[Install]\nWantedBy=multi-user.target\n";
    assert_eq!(unit, expected);
}

#[test]
fn restart_policy_stanzas() {
    assert_eq!(RestartPolicy::Always.stanza(), "Restart=always");
    assert_eq!(RestartPolicy::No.stanza(), "Restart=no");
    assert_eq!(
        RestartPolicy::OnFailure { max_burst_limit: 10, retry_after_minutes: 2 }.stanza(),
        "Restart=on-failure\nStartLimitBurst=10\nRestartSec=2m"
    );
}
