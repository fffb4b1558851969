//! Per-project manifests: their shape, the comment-stripping rule that
//! runs before JSON parsing, and the identifiers derived from manifest
//! paths.

use vstd::prelude::*;

use crate::strutil::{
    dec_str, join_lines, join_seq, split_char, split_seq, str_starts_with, starts_with_seq,
    u64_to_dec,
};

verus! {

/// Restart behavior of a rendered service unit.
#[derive(Debug, Clone, Copy, PartialEq, Eq, Structural)]
pub enum RestartPolicy {
    Always,
    OnFailure { max_burst_limit: u8, retry_after_minutes: u8 },
    No,
}

/// The unit-file stanza a restart policy renders to.
pub open spec fn restart_stanza_spec(p: RestartPolicy) -> Seq<char> {
    match p {
        RestartPolicy::Always => "Restart=always"@,
        RestartPolicy::OnFailure { max_burst_limit, retry_after_minutes } => {
            "Restart=on-failure\nStartLimitBurst="@ + dec_str(max_burst_limit as nat)
                + "\nRestartSec="@ + dec_str(retry_after_minutes as nat) + "m"@
        },
        RestartPolicy::No => "Restart=no"@,
    }
}

impl RestartPolicy {
    /// Renders the policy's unit-file stanza.
    pub fn stanza(&self) -> (r: String)
        ensures
            r@ == restart_stanza_spec(*self),
    {
        match self {
            RestartPolicy::Always => String::from_str("Restart=always"),
            RestartPolicy::OnFailure { max_burst_limit, retry_after_minutes } => {
                let mut out = String::from_str("Restart=on-failure\nStartLimitBurst=");
                let burst = u64_to_dec(*max_burst_limit as u64);
                out.append(burst.as_str());
                out.append("\nRestartSec=");
                let retry = u64_to_dec(*retry_after_minutes as u64);
                out.append(retry.as_str());
                out.append("m");
                out
            },
            RestartPolicy::No => String::from_str("Restart=no"),
        }
    }
}

/// Service-unit settings of a manifest.
#[derive(Debug)]
pub struct ServiceSettings {
    pub exec_command: Option<String>,
    pub exec_pre_command: Option<String>,
    pub restart_policy: RestartPolicy,
}

/// A per-project declarative manifest, the parsed form of a
/// `directive.ais` file.
#[derive(Debug)]
pub struct Directive {
    pub url: String,
    pub port: u16,
    /// Whether a web-server virtual host is wanted.
    pub apache: bool,
    /// PHP handler version; recognized: "7.4", "8.1", "8.2".
    pub php_fpm_version: Option<String>,
    /// Whether the project is a Node.js application.
    pub nodejs_bool: bool,
    pub nodejs_version: Option<String>,
    pub service_settings: ServiceSettings,
    /// Restart the service when the project directory changes.
    pub directory_tracking: bool,
    /// Sets PermissionsStartOnly in the rendered unit.
    pub exec_pre_as_root: bool,
    /// Never written by the agents.
    pub directive_executed: bool,
}

/// A blank character for the purpose of comment detection.
pub open spec fn is_blank_char(c: char) -> bool {
    c == ' ' || c == '\t' || c == '\r'
}

/// A line whose first non-blank character is `#`.
pub open spec fn is_comment_line(l: Seq<char>) -> bool
    decreases l.len(),
{
    if l.len() == 0 {
        false
    } else if is_blank_char(l[0]) {
        is_comment_line(l.skip(1))
    } else {
        l[0] == '#'
    }
}

/// The lines of a manifest that survive comment stripping, in order.
pub open spec fn kept_lines(parts: Seq<Seq<char>>) -> Seq<Seq<char>>
    decreases parts.len(),
{
    if parts.len() == 0 {
        Seq::empty()
    } else {
        let rest = kept_lines(parts.drop_last());
        if is_comment_line(parts.last()) {
            rest
        } else {
            rest.push(parts.last())
        }
    }
}

/// A manifest's text with its comment lines removed: the lines whose
/// first non-blank character is `#` are dropped, the rest are joined
/// back with newlines.
pub open spec fn strip_comments_spec(s: Seq<char>) -> Seq<char> {
    join_seq(kept_lines(split_seq(s, '\n')), '\n')
}

/// Whether a line's first non-blank character is `#`.
pub fn line_is_comment(l: &str) -> (r: bool)
    ensures
        r == is_comment_line(l@),
{
    let len = l.unicode_len();
    let mut i: usize = 0;
    proof {
        assert(l@.skip(0) =~= l@);
    }
    while i < len
        invariant
            0 <= i <= len,
            len == l@.len(),
            is_comment_line(l@) == is_comment_line(l@.skip(i as int)),
        decreases len - i,
    {
        let c = l.get_char(i);
        proof {
            assert(l@.skip(i as int)[0] == l@[i as int]);
            assert(l@.skip(i as int).skip(1) =~= l@.skip(i as int + 1));
        }
        if c == ' ' || c == '\t' || c == '\r' {
            i = i + 1;
        } else {
            assert(is_comment_line(l@.skip(i as int)) == (l@[i as int] == '#'));
            return c == '#';
        }
    }
    proof {
        assert(l@.skip(len as int) =~= Seq::<char>::empty());
    }
    false
}

/// Strips the comment lines out of a manifest's text.
pub fn strip_comments(s: &str) -> (r: String)
    ensures
        r@ == strip_comments_spec(s@),
{
    let parts = split_char(s, '\n');
    let ghost pview = parts.deep_view();
    let mut kept: Vec<String> = Vec::new();
    let mut i: usize = 0;
    proof {
        assert(pview.take(0) =~= Seq::<Seq<char>>::empty());
        assert(kept.deep_view() =~= Seq::<Seq<char>>::empty());
        assert(kept_lines(pview.take(0)) =~= Seq::<Seq<char>>::empty());
    }
    while i < parts.len()
        invariant
            0 <= i <= parts.len(),
            pview == parts.deep_view(),
            pview.len() == parts.len(),
            kept.deep_view() == kept_lines(pview.take(i as int)),
        decreases parts.len() - i,
    {
        let ghost kept0 = kept.deep_view();
        proof {
            assert(parts@[i as int]@ == pview[i as int]);
        }
        let keep_it = !line_is_comment(parts[i].as_str());
        if keep_it {
            let piece = parts[i].clone();
            kept.push(piece);
            proof {
                assert(kept.deep_view() =~= kept0.push(pview[i as int]));
            }
        }
        proof {
            let t1 = pview.take(i as int + 1);
            assert(t1.drop_last() =~= pview.take(i as int));
            assert(t1.last() == pview[i as int]);
        }
        i = i + 1;
    }
    proof {
        assert(pview.take(parts.len() as int) =~= pview);
    }
    join_lines(&kept)
}

/// Index of the last slash in a path, or -1.
pub open spec fn last_slash_idx(s: Seq<char>) -> int
    decreases s.len(),
{
    if s.len() == 0 {
        -1
    } else if s.last() == '/' {
        s.len() - 1
    } else {
        last_slash_idx(s.drop_last())
    }
}

/// The directory holding a path: the text before its last slash, or the
/// scratch directory for a path with none.
pub open spec fn parent_dir_spec(path: Seq<char>) -> Seq<char> {
    if last_slash_idx(path) >= 0 {
        path.take(last_slash_idx(path))
    } else {
        "/tmp"@
    }
}

/// The directory a manifest sits in.
pub fn get_parent_dir(path: &str) -> (r: String)
    ensures
        r@ == parent_dir_spec(path@),
{
    let len = path.unicode_len();
    let mut j: usize = len;
    proof {
        assert(path@.take(len as int) =~= path@);
    }
    while j > 0
        invariant
            0 <= j <= len,
            len == path@.len(),
            last_slash_idx(path@) == last_slash_idx(path@.take(j as int)),
        decreases j,
    {
        let c = path.get_char(j - 1);
        proof {
            let cur = path@.take(j as int);
            assert(cur.last() == path@[j - 1]);
            assert(cur.drop_last() =~= path@.take(j - 1));
        }
        if c == '/' {
            assert(last_slash_idx(path@) == j - 1);
            return path.substring_char(0, j - 1).to_owned();
        }
        j = j - 1;
    }
    proof {
        assert(path@.take(0) =~= Seq::<char>::empty());
    }
    String::from_str("/tmp")
}

/// The base directory every project lives under.
pub open spec fn project_base_spec() -> Seq<char> {
    "/var/www/ais/"@
}

/// A manifest path relative to the project base: the base prefix is
/// removed when present, anything else is kept whole.
pub open spec fn directive_id_spec(path: Seq<char>) -> Seq<char> {
    if starts_with_seq(path, project_base_spec()) {
        path.skip(project_base_spec().len() as int)
    } else {
        path
    }
}

/// Identifies a manifest by its path relative to the project base.
pub fn get_directive_id(path: &str) -> (r: String)
    ensures
        r@ == directive_id_spec(path@),
{
    let base = "/var/www/ais/";
    proof {
        reveal_strlit("/var/www/ais/");
    }
    if str_starts_with(path, base) {
        let len = path.unicode_len();
        path.substring_char(base.unicode_len(), len).to_owned()
    } else {
        path.to_owned()
    }
}

} // verus!
