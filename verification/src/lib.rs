//! Fleet-management agent library for a small hosting platform.
//!
//! The crate holds the verified core of the per-host agents: the wire
//! codec, the version-compatibility policy, the status registry of the
//! aggregator, the manifest rules and host-configuration renderers of
//! the deployment reconciler, the decision logic of the repository sync
//! loop, and the request routing of the management gateway.

pub mod aggregator;
pub mod apache;
pub mod codec;
pub mod common;
pub mod directive;
pub mod dusa;
pub mod git;
pub mod git_data;
pub mod github;
pub mod hashing;
pub mod log;
pub mod mailing;
pub mod manager;
pub mod messages;
pub mod monitor;
pub mod node;
pub mod pm2;
pub mod reconciler;
pub mod setcap;
pub mod strutil;
pub mod system;
pub mod systemd;
pub mod tracking;
pub mod version;
