use ais_common::hashing::service_id_of;
use ais_common::hashing::truncate;
use ais_common::log::Names;
use ais_common::mailing::Email;
use ais_common::mailing::MailError;
use ais_common::monitor::create_monitoring_script;
use ais_common::monitor::create_monitoring_service;
use ais_common::monitor::monitor_dir;
use ais_common::node::create_node_systemd_path;
use ais_common::node::create_node_systemd_service;
use ais_common::pm2::AppType;
use ais_common::pm2::NodeProject;
use ais_common::pm2::Pm2Manager;
use ais_common::setcap::SystemUsers;
use ais_common::strutil::parse_u32;
use ais_common::strutil::replace_all;
use ais_common::strutil::split_char;
use ais_common::strutil::str_contains;
use ais_common::strutil::trim_ascii;
use ais_common::strutil::u64_to_dec;
use ais_common::system::current_timestamp;
use ais_common::system::format_offset;
use ais_common::system::format_unix_timestamp;
use ais_common::tracking::is_standard_user;
use ais_common::tracking::session_warrants_warning;

#[test]
fn decimal_rendering() {
    assert_eq!(u64_to_dec(0), "0");
    assert_eq!(u64_to_dec(7), "7");
    assert_eq!(u64_to_dec(42), "42");
    assert_eq!(u64_to_dec(1000000), "1000000");
    assert_eq!(u64_to_dec(u64::MAX), "18446744073709551615");
}

#[test]
fn decimal_parsing() {
    assert_eq!(parse_u32("0"), Some(0));
    assert_eq!(parse_u32("007"), Some(7));
    assert_eq!(parse_u32("4294967295"), Some(4294967295));
    assert_eq!(parse_u32("4294967296"), None);
    assert_eq!(parse_u32("99999999999999999999"), None);
    assert_eq!(parse_u32(""), None);
    assert_eq!(parse_u32("12a"), None);
    assert_eq!(parse_u32("-1"), None);
}

#[test]
fn string_utilities() {
    assert!(str_contains("Already up to date.", "up to date"));
    assert!(!str_contains("short", "longer than the text"));
    assert!(str_contains("anything", ""));
    assert_eq!(trim_ascii("  hello \t\n"), "hello");
    assert_eq!(trim_ascii(""), "");
    assert_eq!(trim_ascii("   "), "");
    assert_eq!(replace_all("a-b-c", "-", "+"), "a+b+c");
    assert_eq!(replace_all("aaa", "aa", "b"), "ba");
    assert_eq!(split_char("a,b,,c", ','), vec!["a", "b", "", "c"]);
    assert_eq!(split_char("", ','), vec![""]);
}

#[test]
fn elapsed_time_formatting() {
    assert_eq!(format_offset(5000, 1000), "01:06:40");
    assert_eq!(format_offset(1000, 1000), "00:00:00");
    assert_eq!(format_offset(1000, 5000), "-01:06:40");
    assert_eq!(format_offset(1000 + 360000, 1000), "100:00:00");
    let shown = format_unix_timestamp(0);
    assert!(shown.contains(':'));
}

#[test]
fn clock_runs_past_the_epoch() {
    // written well after 2020
    assert!(current_timestamp() > 1_577_836_800);
}

#[test]
fn truncation_and_service_ids() {
    assert_eq!(truncate("abcdefghij", 8), "abcdefgh");
    assert_eq!(truncate("abc", 8), "abc");
    let sid = service_id_of("user-repo-main");
    assert_eq!(sid.len(), 8);
    assert!(sid.chars().all(|c| c.is_ascii_hexdigit() && !c.is_ascii_uppercase()));
    // a digest, not an echo of its input
    assert_ne!(sid, "user-rep");
    assert_eq!(sid, service_id_of("user-repo-main"));
    assert_ne!(sid, service_id_of("user-repo-dev"));
}

#[test]
fn notification_plaintext() {
    let good = Email::new("subject".to_string(), "body".to_string());
    assert!(good.is_valid());
    assert_eq!(good.plaintext().unwrap(), "subject-=-body");

    let no_subject = Email::new("".to_string(), "body".to_string());
    assert!(!no_subject.is_valid());
    assert_eq!(no_subject.plaintext().unwrap_err(), MailError::InvalidEmail);
    let no_body = Email::new("subject".to_string(), "".to_string());
    assert_eq!(no_body.plaintext().unwrap_err(), MailError::InvalidEmail);
}

#[test]
fn pm2_command_plans() {
    let next = NodeProject::new("app1", "/var/www/ais/ab12cd34", AppType::NextJs);
    assert_eq!(next.name, "app1");
    assert_eq!(next.path, "/var/www/ais/ab12cd34");
    assert_eq!(
        Pm2Manager::start_command(&next),
        vec!["pm2", "start", "npm", "--name", "app1", "--", "run", "start"]
    );
    assert_eq!(Pm2Manager::restart_command(&next), vec!["pm2", "restart", "app1"]);
    assert_eq!(Pm2Manager::stop_command(&next), vec!["pm2", "stop", "app1"]);
    assert_eq!(
        Pm2Manager::rebuild_plan(&next),
        vec![
            vec!["npm".to_string(), "install".to_string()],
            vec!["npm".to_string(), "run".to_string(), "build".to_string()],
            vec![
                "pm2".to_string(),
                "start".to_string(),
                "npm".to_string(),
                "--name".to_string(),
                "app1".to_string(),
                "--".to_string(),
                "run".to_string(),
                "start".to_string(),
            ],
        ]
    );
    let react = NodeProject::new("app2", "/p", AppType::React);
    let plan = Pm2Manager::rebuild_plan(&react);
    assert_eq!(plan.len(), 3);
    assert_eq!(plan[2], vec!["pm2", "restart", "app2"]);
    let other = NodeProject::new("app3", "/p", AppType::Other);
    let oplan = Pm2Manager::rebuild_plan(&other);
    assert_eq!(oplan.len(), 2);
    assert_eq!(oplan[0], vec!["npm", "install"]);
    assert_eq!(oplan[1], vec!["pm2", "restart", "app3"]);
}

#[test]
fn watcher_renders() {
    assert_eq!(monitor_dir(), "/opt/monitors/");
    let script = create_monitoring_script("/var/www/ais/ab12cd34", "ab12cd34");
    assert!(script.starts_with("#!/bin/bash\n\nDIRECTORY_TO_WATCH=\"/var/www/ais/ab12cd34\"\nSERVICE_NAME=\"ab12cd34\"\nCOOLDOWN_PERIOD=30"));
    assert!(script.contains("inotifywait -m -r -e modify,create,delete"));
    assert!(script.contains("systemctl restart \"$SERVICE_NAME.service\""));

    let unit = create_monitoring_service("ab12cd34", "/opt/monitors/ab12cd34.monitor");
    let expected = "[Unit]\nDescription=Recursive File Monitor for ab12cd34\n\n[Service]\nExecStart=/opt/monitors/ab12cd34.monitor\nRestart=always\nUser=root\nGroup=root\n\n[Install]\nWantedBy=multi-user.target\n";
    assert_eq!(unit, expected);
}

#[test]
fn node_unit_renders() {
    let unit = create_node_systemd_service("/usr/bin/npm run start", "/var/www/ais/ab12cd34", "demo");
    assert!(unit.starts_with("[Unit]\nDescription=demo\nAfter=network.target\n"));
    assert!(unit.contains("ExecStart=/usr/bin/npm run start\n"));
    assert!(unit.contains("ExecStartPre=/usr/bin/npm run build\n"));
    assert!(unit.contains("WorkingDirectory=/var/www/ais/ab12cd34\n"));

    let path_unit = create_node_systemd_path("/var/www/ais/ab12cd34", "demo", "unused");
    let expected = "[Unit]\nDescription=Monitor demo for changes\n\n[Path]\nPathModified=/var/www/ais/ab12cd34\n\n[Install]\nWantedBy=multi-user.target\n";
    assert_eq!(path_unit, expected);
}

#[test]
fn standard_users() {
    assert!(is_standard_user("www-data"));
    assert!(is_standard_user("dbus"));
    assert!(is_standard_user("ais"));
    assert!(!is_standard_user("root"));
    assert!(!is_standard_user("intruder"));
    assert!(!is_standard_user(""));
}

#[test]
fn security_warnings() {
    assert!(!session_warrants_warning(0, 0, 0));
    assert!(session_warrants_warning(1, 0, 0));
    assert!(session_warrants_warning(0, 1, 0));
    assert!(!session_warrants_warning(0, 0, 1000000));
    assert!(session_warrants_warning(0, 0, 1000001));
}

#[test]
fn log_names() {
    assert_eq!(Names::AisAggregator.label(), "AisAggregator");
    assert_eq!(Names::AisGithubMonitor.label(), "AisGithubMonitor");
    assert_eq!(SystemUsers::Www.user_name(), "www-data");
    assert_eq!(SystemUsers::Ais.user_name(), "ais");
    assert_eq!(SystemUsers::Dusa.user_name(), "dusa");
}
