//! Repository credentials: the records the sync loop works from, and
//! the newline rule their encrypted file obeys. Reading and writing the
//! file, and the encryption around it, live outside the library.

use vstd::prelude::*;

use crate::strutil::{contains_seq, replace_all, replace_seq};

verus! {

/// One repository's credentials.
#[derive(Debug, PartialEq, Eq)]
pub struct GitAuth {
    pub user: String,
    pub repo: String,
    pub branch: String,
    pub token: String,
}

impl Clone for GitAuth {
    fn clone(&self) -> (r: GitAuth)
        ensures
            r == *self,
    {
        GitAuth {
            user: self.user.clone(),
            repo: self.repo.clone(),
            branch: self.branch.clone(),
            token: self.token.clone(),
        }
    }
}

/// The ordered credentials list of the encrypted file.
#[derive(Debug, PartialEq, Eq)]
pub struct GitCredentials {
    pub auth_items: Vec<GitAuth>,
}

/// Clones a credentials list item by item.
pub fn clone_auth_vec(v: &Vec<GitAuth>) -> (r: Vec<GitAuth>)
    ensures
        r@ == v@,
{
    let mut out: Vec<GitAuth> = Vec::new();
    let mut i: usize = 0;
    while i < v.len()
        invariant
            0 <= i <= v@.len(),
            out@ == v@.take(i as int),
        decreases v@.len() - i,
    {
        out.push(v[i].clone());
        proof {
            assert(out@ =~= v@.take(i as int + 1));
        }
        i = i + 1;
    }
    proof {
        assert(v@.take(v@.len() as int) =~= v@);
    }
    out
}

impl Clone for GitCredentials {
    fn clone(&self) -> (r: GitCredentials)
        ensures
            r.auth_items@ == self.auth_items@,
    {
        GitCredentials { auth_items: clone_auth_vec(&self.auth_items) }
    }
}

impl GitCredentials {
    /// The credentials as a plain list.
    pub fn to_vec(self) -> (r: Vec<GitAuth>)
        ensures
            r@ == self.auth_items@,
    {
        self.auth_items
    }

    /// Appends one repository's credentials.
    pub fn add_auth(&mut self, auth: GitAuth)
        ensures
            final(self).auth_items@ == old(self).auth_items@.push(auth),
    {
        self.auth_items.push(auth);
    }

    /// Builds a credentials list from its items, in order.
    pub fn from_items(items: Vec<GitAuth>) -> (r: GitCredentials)
        ensures
            r.auth_items@ == items@,
    {
        GitCredentials { auth_items: items }
    }
}

/// Removes every newline, as the credentials file's plaintext rule
/// demands on both decrypt and write.
pub fn strip_newlines(s: &str) -> (r: String)
    ensures
        r@ == replace_seq(s@, "\n"@, ""@),
{
    proof {
        reveal_strlit("\n");
    }
    replace_all(s, "\n", "")
}

/// Stripping newlines leaves no newline behind: the plaintext written
/// to the credentials file never holds one.
pub proof fn lemma_strip_newlines_clean(s: Seq<char>)
    ensures
        forall|i: int|
            0 <= i < replace_seq(s, seq!['\n'], Seq::<char>::empty()).len() ==> #[trigger]
                replace_seq(s, seq!['\n'], Seq::<char>::empty())[i] != '\n',
    decreases s.len(),
{
    let pat = seq!['\n'];
    let rep = Seq::<char>::empty();
    let res = replace_seq(s, pat, rep);
    if s.len() < 1 {
    } else if s.take(1) == pat {
        lemma_strip_newlines_clean(s.skip(1));
        assert(res =~= replace_seq(s.skip(1), pat, rep));
    } else {
        lemma_strip_newlines_clean(s.skip(1));
        assert(s.take(1)[0] == s[0]);
        assert(s[0] != '\n') by {
            if s[0] == '\n' {
                assert(s.take(1) =~= pat);
            }
        }
        assert(res == seq![s[0]] + replace_seq(s.skip(1), pat, rep));
    }
}

} // verus!
