//! Deterministic rendering of web-server virtual-host files, and the
//! byte-for-byte comparison that decides whether one must be written.

use vstd::prelude::*;

use crate::directive::Directive;
use crate::strutil::{dec_str, str_eq, u64_to_dec};

verus! {

/// The PHP handler line a manifest's PHP version selects: a hard-coded
/// socket path for a recognized version, empty otherwise.
pub open spec fn php_handler_spec(v: Option<String>) -> Seq<char> {
    match v {
        Some(s) => if s@ == "7.4"@ {
            "SetHandler \"proxy:unix:/var/run/php/php7.4-fpm.sock|fcgi://localhost/\""@
        } else if s@ == "8.1"@ {
            "SetHandler \"proxy:unix:/var/run/php/php8.1-fpm.sock|fcgi://localhost/\""@
        } else if s@ == "8.2"@ {
            "SetHandler \"proxy:unix:/var/run/php/php8.2-fpm.sock|fcgi://localhost/\""@
        } else {
            ""@
        },
        None => ""@,
    }
}

/// The full virtual-host text rendered for a port, server name,
/// document root and PHP handler line.
pub open spec fn vhost_text_spec(
    port: u16,
    url: Seq<char>,
    base: Seq<char>,
    php: Seq<char>,
) -> Seq<char> {
    "<VirtualHost *:"@ + dec_str(port as nat) + ">\n    ServerName "@ + url
        + "\n    DocumentRoot "@ + base + "\n    \n    <Directory \""@ + base
        + "\">\n        Options Indexes FollowSymLinks\n        AllowOverride All\n        Require all granted\n        DirectoryIndex index.php\n    </Directory>\n\n    <FilesMatch \\.php$>\n        "@
        + php
        + "\n    </FilesMatch>\n    ErrorLog ${APACHE_LOG_DIR}/error.log\n    CustomLog ${APACHE_LOG_DIR}/access.log combined\n</VirtualHost>\n        "@
}

/// The virtual-host text a manifest renders to, over a document root.
pub open spec fn vhost_config_spec(d: Directive, base: Seq<char>) -> Seq<char> {
    vhost_text_spec(d.port, d.url@, base, php_handler_spec(d.php_fpm_version))
}

/// Whether the desired text must be written over what exists.
pub open spec fn vhost_needs_write(existing: Option<Seq<char>>, desired: Seq<char>) -> bool {
    match existing {
        Some(e) => e != desired,
        None => true,
    }
}

/// The PHP handler line for a manifest's PHP version.
pub fn php_handler_line(v: &Option<String>) -> (r: &'static str)
    ensures
        r@ == php_handler_spec(*v),
{
    match v {
        Some(s) => {
            if str_eq(s.as_str(), "7.4") {
                "SetHandler \"proxy:unix:/var/run/php/php7.4-fpm.sock|fcgi://localhost/\""
            } else if str_eq(s.as_str(), "8.1") {
                "SetHandler \"proxy:unix:/var/run/php/php8.1-fpm.sock|fcgi://localhost/\""
            } else if str_eq(s.as_str(), "8.2") {
                "SetHandler \"proxy:unix:/var/run/php/php8.2-fpm.sock|fcgi://localhost/\""
            } else {
                ""
            }
        },
        None => "",
    }
}

/// Renders the virtual-host text for a manifest and decides whether it
/// must be written: true exactly when no existing file holds the same
/// bytes. Writing only on mismatch is what makes the reconciler's tick
/// idempotent.
pub fn create_apache_config(directive: &Directive, base_path: &str, existing: &Option<String>) -> (r:
    (String, bool))
    ensures
        r.0@ == vhost_config_spec(*directive, base_path@),
        r.1 == vhost_needs_write(
            match existing {
                Some(e) => Some(e@),
                None => None,
            },
            r.0@,
        ),
{
    let php = php_handler_line(&directive.php_fpm_version);
    let mut out = String::from_str("<VirtualHost *:");
    let port_text = u64_to_dec(directive.port as u64);
    out.append(port_text.as_str());
    out.append(">\n    ServerName ");
    out.append(directive.url.as_str());
    out.append("\n    DocumentRoot ");
    out.append(base_path);
    out.append("\n    \n    <Directory \"");
    out.append(base_path);
    out.append(
        "\">\n        Options Indexes FollowSymLinks\n        AllowOverride All\n        Require all granted\n        DirectoryIndex index.php\n    </Directory>\n\n    <FilesMatch \\.php$>\n        ",
    );
    out.append(php);
    out.append(
        "\n    </FilesMatch>\n    ErrorLog ${APACHE_LOG_DIR}/error.log\n    CustomLog ${APACHE_LOG_DIR}/access.log combined\n</VirtualHost>\n        ",
    );
    let changed = match existing {
        Some(e) => !str_eq(e.as_str(), out.as_str()),
        None => true,
    };
    (out, changed)
}

/// Path of the virtual-host file a server name owns.
pub open spec fn vhost_path_spec(url: Seq<char>) -> Seq<char> {
    "/etc/apache2/sites-available/"@ + url + ".conf"@
}

/// The path the virtual-host file of a server name is written to.
pub fn vhost_path_for(url: &str) -> (r: String)
    ensures
        r@ == vhost_path_spec(url@),
{
    let mut out = String::from_str("/etc/apache2/sites-available/");
    out.append(url);
    out.append(".conf");
    out
}

/// Whether the ports file mentions a port's decimal text. A missing
/// port is reported, never repaired.
pub fn port_listed(ports_config: &str, port: u16) -> (r: bool)
    ensures
        r == crate::strutil::contains_seq(ports_config@, dec_str(port as nat)),
{
    let text = u64_to_dec(port as u64);
    crate::strutil::str_contains(ports_config, text.as_str())
}

/// A second reconciler tick over an unchanged manifest writes nothing:
/// the rendering is a function of the manifest and document root alone,
/// so the file the first tick wrote already holds the desired bytes.
pub proof fn lemma_vhost_idempotent(d: Directive, base: Seq<char>)
    ensures
        !vhost_needs_write(Some(vhost_config_spec(d, base)), vhost_config_spec(d, base)),
{
}

} // verus!
