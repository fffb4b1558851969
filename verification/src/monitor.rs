//! Rendering of the file-change watcher: a shell script that restarts a
//! unit on each debounced batch of changes, and the companion unit that
//! keeps the script running.

use vstd::prelude::*;

verus! {

/// Directory the watcher scripts are written to.
pub fn monitor_dir() -> (r: &'static str)
    ensures
        r@ == "/opt/monitors/"@,
{
    "/opt/monitors/"
}

/// The watcher script over a directory and the unit it restarts.
pub open spec fn monitoring_script_spec(directory: Seq<char>, service_id: Seq<char>) -> Seq<char> {
    "#!/bin/bash\n\nDIRECTORY_TO_WATCH=\""@ + directory + "\"\nSERVICE_NAME=\""@ + service_id
        + "\"\nCOOLDOWN_PERIOD=30  # Time in seconds to wait before restarting again\n\ninotifywait -m -r -e modify,create,delete \"$DIRECTORY_TO_WATCH\" | grep -vE '\\.git/' | while read -r directory events filename; do\n  echo \"Detected changes in $directory$filename\"\n\n  # If the restart is already in progress, skip the restart\n  if [[ -z \"$RESTART_IN_PROGRESS\" ]]; then\n    RESTART_IN_PROGRESS=true\n    echo \"Restarting $SERVICE_NAME.service\"\n    systemctl restart \"$SERVICE_NAME.service\"\n    \n    # Sleep for the cooldown period to avoid restarting repeatedly\n    sleep \"$COOLDOWN_PERIOD\"\n    \n    # Reset the restart flag\n    RESTART_IN_PROGRESS=\"\"\n  else\n    echo \"Restart already in progress, skipping...\"\n  fi\ndone\n"@
}

/// The unit that keeps a watcher script running.
pub open spec fn monitoring_service_spec(service_id: Seq<char>, script_path: Seq<char>) -> Seq<
    char,
> {
    "[Unit]\nDescription=Recursive File Monitor for "@ + service_id + "\n\n[Service]\nExecStart="@
        + script_path + "\nRestart=always\nUser=root\nGroup=root\n\n[Install]\nWantedBy=multi-user.target\n"@
}

/// Renders the watcher script for a project directory and its unit.
pub fn create_monitoring_script(directory_to_watch: &str, service_id: &str) -> (r: String)
    ensures
        r@ == monitoring_script_spec(directory_to_watch@, service_id@),
{
    let mut out = String::from_str("#!/bin/bash\n\nDIRECTORY_TO_WATCH=\"");
    out.append(directory_to_watch);
    out.append("\"\nSERVICE_NAME=\"");
    out.append(service_id);
    out.append(
        "\"\nCOOLDOWN_PERIOD=30  # Time in seconds to wait before restarting again\n\ninotifywait -m -r -e modify,create,delete \"$DIRECTORY_TO_WATCH\" | grep -vE '\\.git/' | while read -r directory events filename; do\n  echo \"Detected changes in $directory$filename\"\n\n  # If the restart is already in progress, skip the restart\n  if [[ -z \"$RESTART_IN_PROGRESS\" ]]; then\n    RESTART_IN_PROGRESS=true\n    echo \"Restarting $SERVICE_NAME.service\"\n    systemctl restart \"$SERVICE_NAME.service\"\n    \n    # Sleep for the cooldown period to avoid restarting repeatedly\n    sleep \"$COOLDOWN_PERIOD\"\n    \n    # Reset the restart flag\n    RESTART_IN_PROGRESS=\"\"\n  else\n    echo \"Restart already in progress, skipping...\"\n  fi\ndone\n",
    );
    out
}

/// Renders the unit file that keeps a watcher script running.
pub fn create_monitoring_service(service_id: &str, script_path: &str) -> (r: String)
    ensures
        r@ == monitoring_service_spec(service_id@, script_path@),
{
    let mut out = String::from_str("[Unit]\nDescription=Recursive File Monitor for ");
    out.append(service_id);
    out.append("\n\n[Service]\nExecStart=");
    out.append(script_path);
    out.append(
        "\nRestart=always\nUser=root\nGroup=root\n\n[Install]\nWantedBy=multi-user.target\n",
    );
    out
}

} // verus!
