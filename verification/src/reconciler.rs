//! The deployment reconciler's per-manifest plan: everything a tick
//! renders and decides for one manifest, computed before any file is
//! touched. The driver walks the base directory, parses each manifest,
//! asks for the plan, and carries it out.

use vstd::prelude::*;

use crate::apache::{vhost_config_spec, vhost_needs_write, vhost_path_spec, create_apache_config,
    vhost_path_for};
use crate::directive::Directive;
use crate::hashing::{service_id_of, sha256_hex_of};
use crate::monitor::{create_monitoring_script, create_monitoring_service, monitoring_script_spec,
    monitoring_service_spec};
use crate::systemd::{create_service_file, service_file_spec};

verus! {

/// The service id of a manifest: the first eight hex digits of the
/// hash of its path relative to the project base.
pub open spec fn reconciler_service_id_spec(relative_path: Seq<char>) -> Seq<char> {
    sha256_hex_of(relative_path).take(8)
}

/// Derives a manifest's service id from its relative path.
pub fn reconciler_service_id(relative_path: &str) -> (r: String)
    ensures
        r@ == reconciler_service_id_spec(relative_path@),
        r@.len() == 8,
{
    service_id_of(relative_path)
}

/// Path of a service unit under the init system.
pub open spec fn service_unit_path_spec(service_id: Seq<char>) -> Seq<char> {
    "/etc/systemd/system/"@ + service_id + ".service"@
}

/// Path of the watcher unit of a service.
pub open spec fn monitor_unit_path_spec(service_id: Seq<char>) -> Seq<char> {
    "/etc/systemd/system/"@ + service_id + "_monitor.service"@
}

/// Path of the watcher script of a service.
pub open spec fn monitor_script_path_spec(service_id: Seq<char>) -> Seq<char> {
    "/opt/monitors/"@ + service_id + ".monitor"@
}

/// The description a manifest's unit carries.
pub open spec fn unit_description_spec(parent_dir: Seq<char>) -> Seq<char> {
    "Ais project id "@ + parent_dir
}

/// The virtual-host work of one manifest: where to write, what to
/// write, and whether a write is owed at all.
pub struct VhostPlan {
    pub path: String,
    pub content: String,
    pub write_needed: bool,
}

/// The unit work of one manifest: the service unit, the watcher script,
/// the watcher unit, and the two units to enable, in that order.
pub struct UnitPlan {
    pub service_path: String,
    pub service_content: String,
    pub monitor_script_path: String,
    pub monitor_script_content: String,
    pub monitor_unit_path: String,
    pub monitor_unit_content: String,
    pub enable_service: String,
    pub enable_monitor: String,
}

/// Everything one tick renders and decides for one manifest.
pub struct DirectivePlan {
    /// Present exactly when the manifest asks for a virtual host.
    pub vhost: Option<VhostPlan>,
    /// Run the package installer in the project directory.
    pub npm_install: bool,
    /// Present exactly when the manifest names a start command.
    pub unit: Option<UnitPlan>,
}

/// Whether a unit plan is owed: the manifest names a start command.
pub open spec fn wants_unit(d: Directive) -> bool {
    d.service_settings.exec_command is Some
}

/// Computes the plan for one manifest: the rendered virtual host and
/// whether it differs from what exists, the package-install flag, and
/// the rendered units and watcher. Everything is a function of the
/// manifest, its directory, its service id and the existing
/// virtual-host text.
pub fn plan_directive(
    directive: &Directive,
    parent_dir: &str,
    service_id: &str,
    existing_vhost: &Option<String>,
) -> (r: DirectivePlan)
    ensures
        r.vhost is Some <==> directive.apache,
        match r.vhost {
            Some(v) => {
                &&& v.path@ == vhost_path_spec(directive.url@)
                &&& v.content@ == vhost_config_spec(*directive, parent_dir@)
                &&& v.write_needed == vhost_needs_write(
                    match existing_vhost {
                        Some(e) => Some(e@),
                        None => None,
                    },
                    v.content@,
                )
            },
            None => true,
        },
        r.npm_install == directive.nodejs_bool,
        r.unit is Some <==> wants_unit(*directive),
        match r.unit {
            Some(u) => {
                &&& u.service_path@ == service_unit_path_spec(service_id@)
                &&& u.service_content@ == service_file_spec(
                    directive.service_settings.exec_command->Some_0@,
                    match directive.service_settings.exec_pre_command {
                        Some(ref p) => Some(p@),
                        None => None,
                    },
                    unit_description_spec(parent_dir@),
                    parent_dir@,
                    "www-data"@,
                    "www-data"@,
                    directive.service_settings.restart_policy,
                    directive.exec_pre_as_root,
                )
                &&& u.monitor_script_path@ == monitor_script_path_spec(service_id@)
                &&& u.monitor_script_content@ == monitoring_script_spec(parent_dir@, service_id@)
                &&& u.monitor_unit_path@ == monitor_unit_path_spec(service_id@)
                &&& u.monitor_unit_content@ == monitoring_service_spec(
                    service_id@,
                    monitor_script_path_spec(service_id@),
                )
                &&& u.enable_service@ == service_id@
                &&& u.enable_monitor@ == service_id@ + "_monitor"@
            },
            None => true,
        },
{
    let vhost = if directive.apache {
        let path = vhost_path_for(directive.url.as_str());
        let (content, write_needed) = create_apache_config(directive, parent_dir, existing_vhost);
        Some(VhostPlan { path, content, write_needed })
    } else {
        None
    };

    let unit = match &directive.service_settings.exec_command {
        Some(exec_start) => {
            let mut description = String::from_str("Ais project id ");
            description.append(parent_dir);

            let mut service_path = String::from_str("/etc/systemd/system/");
            service_path.append(service_id);
            service_path.append(".service");

            let exec_pre: Option<&str> = match &directive.service_settings.exec_pre_command {
                Some(p) => Some(p.as_str()),
                None => None,
            };
            let service_content = create_service_file(
                exec_start.as_str(),
                exec_pre,
                description.as_str(),
                parent_dir,
                "www-data",
                "www-data",
                &directive.service_settings.restart_policy,
                directive.exec_pre_as_root,
            );

            let mut monitor_script_path = String::from_str("/opt/monitors/");
            monitor_script_path.append(service_id);
            monitor_script_path.append(".monitor");

            let monitor_script_content = create_monitoring_script(parent_dir, service_id);

            let mut monitor_unit_path = String::from_str("/etc/systemd/system/");
            monitor_unit_path.append(service_id);
            monitor_unit_path.append("_monitor.service");

            let monitor_unit_content = create_monitoring_service(
                service_id,
                monitor_script_path.as_str(),
            );

            let enable_service = service_id.to_owned();
            let mut enable_monitor = service_id.to_owned();
            enable_monitor.append("_monitor");

            Some(
                UnitPlan {
                    service_path,
                    service_content,
                    monitor_script_path,
                    monitor_script_content,
                    monitor_unit_path,
                    monitor_unit_content,
                    enable_service,
                    enable_monitor,
                },
            )
        },
        None => None,
    };

    DirectivePlan { vhost, npm_install: directive.nodejs_bool, unit }
}

} // verus!
