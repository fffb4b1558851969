//! The security agent's pure rules: which accounts are ordinary system
//! users, and when a session summary warrants a warning.

use vstd::prelude::*;

use crate::strutil::str_eq;

verus! {

/// The accounts considered ordinary system users; sessions of any other
/// account, and of root, are summarized.
pub open spec fn is_standard_user_spec(u: Seq<char>) -> bool {
    ||| u == "openvpn"@
    ||| u == "systemd-oom"@
    ||| u == "dbus"@
    ||| u == "ftp"@
    ||| u == "avahi"@
    ||| u == "geoclue"@
    ||| u == "rtkit"@
    ||| u == "rpcuser"@
    ||| u == "polkitd"@
    ||| u == "rpc"@
    ||| u == "systemd-coredump"@
    ||| u == "git"@
    ||| u == "fwupd"@
    ||| u == "usbmux"@
    ||| u == "dusa"@
    ||| u == "flatpak"@
    ||| u == "lightdm"@
    ||| u == "passim"@
    ||| u == "mysql"@
    ||| u == "www-data"@
    ||| u == "cups"@
    ||| u == "nobody"@
    ||| u == "tss"@
    ||| u == "systemd-journal-remote"@
    ||| u == "nm-openvpn"@
    ||| u == "uuidd"@
    ||| u == "ollama"@
    ||| u == "http"@
    ||| u == "daemon"@
    ||| u == "bin"@
    ||| u == "sys"@
    ||| u == "sync"@
    ||| u == "games"@
    ||| u == "man"@
    ||| u == "lp"@
    ||| u == "mail"@
    ||| u == "news"@
    ||| u == "uucp"@
    ||| u == "proxy"@
    ||| u == "backup"@
    ||| u == "list"@
    ||| u == "irc"@
    ||| u == "gnats"@
    ||| u == "_apt"@
    ||| u == "systemd-timesync"@
    ||| u == "systemd-network"@
    ||| u == "systemd-resolve"@
    ||| u == "systemd-bus-proxy"@
    ||| u == "Debian-exim"@
    ||| u == "statd"@
    ||| u == "tcpdump"@
    ||| u == "sshd"@
    ||| u == "nslcd"@
    ||| u == "netdata"@
    ||| u == "_rpc"@
    ||| u == "messagebus"@
    ||| u == "_chrony"@
    ||| u == "redis"@
    ||| u == "ais"@
    ||| u == "cockpit-ws"@
    ||| u == "pcp"@
    ||| u == "cockpit-wsinstance"@
    ||| u == "dnsmasq"@
}

/// Whether an account is an ordinary system user.
pub fn is_standard_user(user: &str) -> (r: bool)
    ensures
        r == is_standard_user_spec(user@),
{
    str_eq(user, "openvpn") || str_eq(user, "systemd-oom") || str_eq(user, "dbus") || str_eq(
        user,
        "ftp",
    ) || str_eq(user, "avahi") || str_eq(user, "geoclue") || str_eq(user, "rtkit") || str_eq(
        user,
        "rpcuser",
    ) || str_eq(user, "polkitd") || str_eq(user, "rpc") || str_eq(user, "systemd-coredump")
        || str_eq(user, "git") || str_eq(user, "fwupd") || str_eq(user, "usbmux") || str_eq(
        user,
        "dusa",
    ) || str_eq(user, "flatpak") || str_eq(user, "lightdm") || str_eq(user, "passim") || str_eq(
        user,
        "mysql",
    ) || str_eq(user, "www-data") || str_eq(user, "cups") || str_eq(user, "nobody") || str_eq(
        user,
        "tss",
    ) || str_eq(user, "systemd-journal-remote") || str_eq(user, "nm-openvpn") || str_eq(
        user,
        "uuidd",
    ) || str_eq(user, "ollama") || str_eq(user, "http") || str_eq(user, "daemon") || str_eq(
        user,
        "bin",
    ) || str_eq(user, "sys") || str_eq(user, "sync") || str_eq(user, "games") || str_eq(
        user,
        "man",
    ) || str_eq(user, "lp") || str_eq(user, "mail") || str_eq(user, "news") || str_eq(
        user,
        "uucp",
    ) || str_eq(user, "proxy") || str_eq(user, "backup") || str_eq(user, "list") || str_eq(
        user,
        "irc",
    ) || str_eq(user, "gnats") || str_eq(user, "_apt") || str_eq(user, "systemd-timesync")
        || str_eq(user, "systemd-network") || str_eq(user, "systemd-resolve") || str_eq(
        user,
        "systemd-bus-proxy",
    ) || str_eq(user, "Debian-exim") || str_eq(user, "statd") || str_eq(user, "tcpdump") || str_eq(
        user,
        "sshd",
    ) || str_eq(user, "nslcd") || str_eq(user, "netdata") || str_eq(user, "_rpc") || str_eq(
        user,
        "messagebus",
    ) || str_eq(user, "_chrony") || str_eq(user, "redis") || str_eq(user, "ais") || str_eq(
        user,
        "cockpit-ws",
    ) || str_eq(user, "pcp") || str_eq(user, "cockpit-wsinstance") || str_eq(user, "dnsmasq")
}

/// Whether a session summary warrants a warning: any authentication
/// attempt, any anomaly event, or over a million commands.
pub fn session_warrants_warning(
    authentication_attempts: usize,
    anomaly_events: usize,
    command_count: usize,
) -> (r: bool)
    ensures
        r == (authentication_attempts > 0 || anomaly_events > 0 || command_count > 1000000),
{
    authentication_attempts > 0 || anomaly_events > 0 || command_count > 1000000
}

} // verus!
