//! The established system users the platform acts as.

use vstd::prelude::*;

verus! {

/// A system user a task runs as or hands files to.
#[derive(Debug, Clone, Copy, PartialEq, Eq, Hash, PartialOrd, Ord, Structural)]
pub enum SystemUsers {
    Ais,
    Www,
    Dusa,
}

/// Account name of a system user.
pub open spec fn user_name_spec(u: SystemUsers) -> Seq<char> {
    match u {
        SystemUsers::Ais => "ais"@,
        SystemUsers::Www => "www-data"@,
        SystemUsers::Dusa => "dusa"@,
    }
}

impl SystemUsers {
    /// The account name the system knows this user by.
    pub fn user_name(&self) -> (r: &'static str)
        ensures
            r@ == user_name_spec(*self),
    {
        match self {
            SystemUsers::Ais => "ais",
            SystemUsers::Www => "www-data",
            SystemUsers::Dusa => "dusa",
        }
    }
}

} // verus!
