use ais_common::apache::create_apache_config;
use ais_common::apache::port_listed;
use ais_common::apache::vhost_path_for;
use ais_common::directive::get_directive_id;
use ais_common::directive::get_parent_dir;
use ais_common::directive::line_is_comment;
use ais_common::directive::strip_comments;
use ais_common::directive::Directive;
use ais_common::directive::RestartPolicy;
use ais_common::directive::ServiceSettings;
use ais_common::reconciler::plan_directive;
use ais_common::reconciler::reconciler_service_id;

fn sample_directive() -> Directive {
    Directive {
        url: "example.com".to_string(),
        port: 8080,
        apache: true,
        php_fpm_version: Some("8.1".to_string()),
        nodejs_bool: true,
        nodejs_version: Some("22".to_string()),
        service_settings: ServiceSettings {
            exec_command: Some("/usr/bin/node server.js".to_string()),
            exec_pre_command: None,
            restart_policy: RestartPolicy::Always,
        },
        directory_tracking: true,
        exec_pre_as_root: false,
        directive_executed: false,
    }
}

#[test]
fn manifest_comment_stripping() {
    // A manifest prefixed by a comment line strips to the same text as
    // the manifest without it, so both parse identically.
    let body = "{\n  \"url\": \"example.com\",\n  \"port\": 8080\n}";
    let with_comment = format!("# deployment manifest\n{}", body);
    assert_eq!(strip_comments(&with_comment), strip_comments(body));
    assert_eq!(strip_comments(body), body);
}

#[test]
fn comment_lines_are_detected_after_blanks() {
    assert!(line_is_comment("# note"));
    assert!(line_is_comment("   \t# indented"));
    assert!(!line_is_comment("{ \"port\": 1 } # not a comment line"));
    assert!(!line_is_comment(""));
    assert!(!line_is_comment("   "));
}

#[test]
fn interleaved_comments_are_dropped() {
    let text = "# top\n{\n# middle\n\"a\": 1\n}\n# bottom";
    assert_eq!(strip_comments(text), "{\n\"a\": 1\n}");
}

#[test]
fn parent_directories() {
    assert_eq!(get_parent_dir("/var/www/ais/ab12cd34/directive.ais"), "/var/www/ais/ab12cd34");
    assert_eq!(get_parent_dir("/var"), "");
    assert_eq!(get_parent_dir("bare-name"), "/tmp");
}

#[test]
fn directive_ids_are_relative_to_the_base() {
    assert_eq!(get_directive_id("/var/www/ais/ab12cd34/directive.ais"), "ab12cd34/directive.ais");
    assert_eq!(get_directive_id("/srv/elsewhere/directive.ais"), "/srv/elsewhere/directive.ais");
}

#[test]
fn vhost_rendering_and_write_decision() {
    let d = sample_directive();
    let (content, changed) = create_apache_config(&d, "/var/www/ais/ab12cd34", &None);
    assert!(changed);
    let expected = "<VirtualHost *:8080>\n    ServerName example.com\n    DocumentRoot /var/www/ais/ab12cd34\n    \n    <Directory \"/var/www/ais/ab12cd34\">\n        Options Indexes FollowSymLinks\n        AllowOverride All\n        Require all granted\n        DirectoryIndex index.php\n    </Directory>\n\n    <FilesMatch \\.php$>\n        SetHandler \"proxy:unix:/var/run/php/php8.1-fpm.sock|fcgi://localhost/\"\n    </FilesMatch>\n    ErrorLog ${APACHE_LOG_DIR}/error.log\n    CustomLog ${APACHE_LOG_DIR}/access.log combined\n</VirtualHost>\n        ";
    assert_eq!(content, expected);

    // a second tick over the unchanged manifest needs no write
    let (same, changed_again) = create_apache_config(&d, "/var/www/ais/ab12cd34", &Some(content));
    assert_eq!(same, expected);
    assert!(!changed_again);
}

#[test]
fn unrecognized_php_version_gets_no_handler() {
    let mut d = sample_directive();
    d.php_fpm_version = Some("5.6".to_string());
    let (content, _) = create_apache_config(&d, "/base", &None);
    assert!(!content.contains("SetHandler"));
    d.php_fpm_version = None;
    let (content2, _) = create_apache_config(&d, "/base", &None);
    assert!(!content2.contains("SetHandler"));
}

#[test]
fn vhost_paths_and_ports() {
    assert_eq!(vhost_path_for("example.com"), "/etc/apache2/sites-available/example.com.conf");
    assert!(port_listed("Listen 80\nListen 8080\n", 8080));
    assert!(!port_listed("Listen 80\n", 8443));
}

#[test]
fn directive_plan_covers_every_step() {
    let d = sample_directive();
    let sid = reconciler_service_id("ab12cd34/directive.ais");
    assert_eq!(sid.len(), 8);
    let plan = plan_directive(&d, "/var/www/ais/ab12cd34", &sid, &None);

    let vhost = plan.vhost.expect("apache was requested");
    assert_eq!(vhost.path, "/etc/apache2/sites-available/example.com.conf");
    assert!(vhost.write_needed);

    assert!(plan.npm_install);

    let unit = plan.unit.expect("a start command was given");
    assert_eq!(unit.service_path, format!("/etc/systemd/system/{}.service", sid));
    assert_eq!(unit.monitor_script_path, format!("/opt/monitors/{}.monitor", sid));
    assert_eq!(unit.monitor_unit_path, format!("/etc/systemd/system/{}_monitor.service", sid));
    assert_eq!(unit.enable_service, sid);
    assert_eq!(unit.enable_monitor, format!("{}_monitor", sid));
    assert!(unit.service_content.contains("ExecStart=/usr/bin/node server.js"));
    assert!(unit.service_content.contains("PermissionsStartOnly=false"));
    assert!(!unit.service_content.contains("ExecStartPre="));
    assert!(unit.monitor_script_content.contains(&format!("SERVICE_NAME=\"{}\"", sid)));
    assert!(unit.monitor_unit_content.contains(&format!("ExecStart=/opt/monitors/{}.monitor", sid)));
}

#[test]
fn directive_plan_skips_what_is_not_asked() {
    let mut d = sample_directive();
    d.apache = false;
    d.nodejs_bool = false;
    d.service_settings.exec_command = None;
    let plan = plan_directive(&d, "/var/www/ais/ab12cd34", "ab12cd34", &None);
    assert!(plan.vhost.is_none());
    assert!(!plan.npm_install);
    assert!(plan.unit.is_none());
}
