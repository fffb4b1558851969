//! Rendering of the unit and path files for Node.js projects.

use vstd::prelude::*;

verus! {

/// The unit rendered for a Node.js service.
pub open spec fn node_service_spec(
    exec_start: Seq<char>,
    working_dir: Seq<char>,
    description: Seq<char>,
) -> Seq<char> {
    "[Unit]\nDescription="@ + description
        + "\nAfter=network.target\n\n[Service]\nPermissionsStartOnly=false\nExecStart="@
        + exec_start
        + "\nExecStartPre=/usr/bin/npm run build\nRestart=always\n# running as a user that has the permissions to bind to the ports needed\nUser=www-data\nGroup=www-data\nEnvironment=PATH=/usr/bin:/usr/local/bin\n#Environment=NODE_ENV=production\nWorkingDirectory="@
        + working_dir + "\n\n[Install]\nWantedBy=multi-user.target\n"@
}

/// The path unit that watches a Node.js project's directory.
pub open spec fn node_path_spec(working_dir: Seq<char>, description: Seq<char>) -> Seq<char> {
    "[Unit]\nDescription=Monitor "@ + description + " for changes\n\n[Path]\nPathModified="@
        + working_dir + "\n\n[Install]\nWantedBy=multi-user.target\n"@
}

/// Renders the service unit for a Node.js project.
pub fn create_node_systemd_service(exec_start: &str, working_dir: &str, description: &str) -> (r:
    String)
    ensures
        r@ == node_service_spec(exec_start@, working_dir@, description@),
{
    let mut out = String::from_str("[Unit]\nDescription=");
    out.append(description);
    out.append("\nAfter=network.target\n\n[Service]\nPermissionsStartOnly=false\nExecStart=");
    out.append(exec_start);
    out.append(
        "\nExecStartPre=/usr/bin/npm run build\nRestart=always\n# running as a user that has the permissions to bind to the ports needed\nUser=www-data\nGroup=www-data\nEnvironment=PATH=/usr/bin:/usr/local/bin\n#Environment=NODE_ENV=production\nWorkingDirectory=",
    );
    out.append(working_dir);
    out.append("\n\n[Install]\nWantedBy=multi-user.target\n");
    out
}

/// Renders the path unit that watches a Node.js project's directory.
pub fn create_node_systemd_path(working_dir: &str, description: &str, _service_name: &str) -> (r:
    String)
    ensures
        r@ == node_path_spec(working_dir@, description@),
{
    let mut out = String::from_str("[Unit]\nDescription=Monitor ");
    out.append(description);
    out.append(" for changes\n\n[Path]\nPathModified=");
    out.append(working_dir);
    out.append("\n\n[Install]\nWantedBy=multi-user.target\n");
    out
}

} // verus!
