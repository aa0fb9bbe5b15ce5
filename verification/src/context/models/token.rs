//! Security tokens, integrity levels and privileges.
use vstd::prelude::*;

verus! {

/// Integrity level of a token.
#[derive(Debug, Clone, Copy, PartialEq, Eq, Structural, PartialOrd, Ord, Hash)]
pub enum IntegrityLevel {
    /// Untrusted.
    Untrusted,
    /// Low.
    Low,
    /// Medium.
    Medium,
    /// High.
    High,
    /// System.
    System,
    /// Protected process.
    ProtectedProcess,
    /// Not determined.
    Unknown,
}

impl Default for IntegrityLevel {
    fn default() -> (l: Self)
        ensures
            l == IntegrityLevel::Unknown,
    {
        IntegrityLevel::Unknown
    }
}

/// A named privilege and whether it is enabled.
#[derive(Debug, Clone, PartialEq, Eq)]
pub struct PrivilegeState {
    /// Name of the privilege.
    pub name: String,
    /// The privilege is enabled.
    pub is_enabled: bool,
}

/// A security token.
#[derive(Debug, Clone)]
pub struct TokenContext {
    /// SID of the owner, e.g. `S-1-5-18`.
    pub user_sid: Option<String>,
    /// Account name of the owner.
    pub user_name: Option<String>,
    /// Session of the token.
    pub session_id: u32,
    /// Integrity level.
    pub integrity: IntegrityLevel,
    /// The token is elevated.
    pub is_elevated: bool,
    /// Names of the enabled privileges.
    pub enabled_privileges: Vec<String>,
}

/// The set of names held by `v`.
pub open spec fn name_set(v: Seq<String>) -> Set<Seq<char>> {
    Set::new(|n: Seq<char>| exists|i: int| 0 <= i < v.len() && #[trigger] v[i]@ == n)
}

impl TokenContext {
    /// Names of the enabled privileges.
    pub open spec fn privileges(&self) -> Set<Seq<char>> {
        name_set(self.enabled_privileges@)
    }

    /// An empty token: no owner, session 0, unknown integrity, not elevated, no privileges.
    pub fn new() -> (t: Self)
        ensures
            t.user_sid is None,
            t.user_name is None,
            t.session_id == 0,
            t.integrity == IntegrityLevel::Unknown,
            !t.is_elevated,
            t.enabled_privileges@.len() == 0,
            t.privileges() == Set::<Seq<char>>::empty(),
    {
        let t = TokenContext {
            user_sid: None,
            user_name: None,
            session_id: 0,
            integrity: IntegrityLevel::Unknown,
            is_elevated: false,
            enabled_privileges: Vec::new(),
        };
        assert(t.privileges() =~= Set::<Seq<char>>::empty());
        t
    }

    /// The privilege is enabled on this token.
    pub fn has_privilege(&self, priv_name: &str) -> (b: bool)
        ensures
            b == self.privileges().contains(priv_name@),
    {
        let wanted: String = priv_name.to_owned();
        let n = self.enabled_privileges.len();
        let mut i: usize = 0;
        while i < n
            invariant
                n == self.enabled_privileges@.len(),
                i <= n,
                wanted@ == priv_name@,
                forall|j: int| 0 <= j < i ==> self.enabled_privileges@[j]@ != priv_name@,
            decreases n - i,
        {
            if self.enabled_privileges[i] == wanted {
                assert(self.enabled_privileges@[i as int]@ == priv_name@);
                return true;
            }
            i = i + 1;
        }
        false
    }

    /// Enables the privilege on this token (no change when it already is).
    pub fn enable_privilege(&mut self, priv_name: String)
        ensures
            final(self).privileges() == old(self).privileges().insert(priv_name@),
            final(self).user_sid == old(self).user_sid,
            final(self).user_name == old(self).user_name,
            final(self).session_id == old(self).session_id,
            final(self).integrity == old(self).integrity,
            final(self).is_elevated == old(self).is_elevated,
    {
        if self.has_privilege(priv_name.as_str()) {
            assert(old(self).privileges().insert(priv_name@) =~= old(self).privileges());
            return;
        }
        let ghost before = self.enabled_privileges@;
        let ghost name = priv_name@;
        self.enabled_privileges.push(priv_name);
        assert forall|n: Seq<char>| self.privileges().contains(n) <==> old(self).privileges().insert(name).contains(n) by {
            if self.privileges().contains(n) {
                let i = choose|i: int| 0 <= i < self.enabled_privileges@.len() && #[trigger] self.enabled_privileges@[i]@ == n;
                if i < before.len() {
                    assert(before[i]@ == n);
                }
            }
            if old(self).privileges().contains(n) {
                let i = choose|i: int| 0 <= i < before.len() && #[trigger] before[i]@ == n;
                assert(self.enabled_privileges@[i]@ == n);
            }
            if n == name {
                assert(self.enabled_privileges@[before.len() as int]@ == n);
            }
        }
        assert(self.privileges() =~= old(self).privileges().insert(name));
    }
}

impl Default for TokenContext {
    fn default() -> (t: Self)
        ensures
            t.user_sid is None,
            t.user_name is None,
            t.session_id == 0,
            t.integrity == IntegrityLevel::Unknown,
            !t.is_elevated,
            t.enabled_privileges@.len() == 0,
    {
        TokenContext::new()
    }
}

/// Enabling a privilege makes it held, and holding is unaffected for every other name.
pub proof fn lemma_enable_then_has(before: TokenContext, after: TokenContext, name: Seq<char>, other: Seq<char>)
    requires
        after.privileges() == before.privileges().insert(name),
    ensures
        after.privileges().contains(name),
        other != name ==> (after.privileges().contains(other) == before.privileges().contains(other)),
{
}

} // verus!
