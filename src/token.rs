use vstd::prelude::*;

verus! {

/// Who may perform an action.
#[derive(Clone, Copy, Debug, PartialEq, Eq, Structural)]
pub enum AccessRule {
    AllowAll,
    DenyAll,
}

/// The rule for one action together with the rule for changing that rule.
#[derive(Clone, Copy, Debug, PartialEq, Eq, Structural)]
pub struct RolePolicy {
    pub rule: AccessRule,
    pub updater: AccessRule,
}

/// The payload stamped into a badge when it is minted.
#[derive(Clone, Debug)]
pub struct GachaFiBadgeData {
    pub tier: String,
    /// Issuance time: seconds since the epoch, at minute precision.
    pub issued_at: i64,
    /// Caller-supplied metadata; not a uniqueness key.
    pub nonce: u64,
}

/// A minted badge: its identifier, assigned by the token authority, and its
/// payload.
#[derive(Debug)]
pub struct Badge {
    pub id: u64,
    pub data: GachaFiBadgeData,
}

/// Why the authority could not mint.
#[derive(Clone, Copy, Debug, PartialEq, Eq, Structural)]
pub enum MintError {
    /// Every identifier has been handed out.
    IdentifiersExhausted,
}

/// The authority that mints and burns badges of one class. Its mint and burn
/// policies are fixed when it is created and nothing can change them; it
/// hands out each identifier at most once.
#[derive(Debug)]
pub struct TokenAuthority {
    name: String,
    symbol: String,
    mint_policy: RolePolicy,
    burn_policy: RolePolicy,
    next_id: u64,
    exhausted: bool,
}

/// What a reader of the authority can observe.
pub struct AuthorityView {
    pub name: Seq<char>,
    pub symbol: Seq<char>,
    pub mint_policy: RolePolicy,
    pub burn_policy: RolePolicy,
    /// Every identifier below this one has been handed out, and no other.
    pub next_id: int,
}

/// The policy of the badge class: anyone may act, nobody may change who may.
pub open spec fn open_locked() -> RolePolicy {
    RolePolicy { rule: AccessRule::AllowAll, updater: AccessRule::DenyAll }
}

impl View for TokenAuthority {
    type V = AuthorityView;

    closed spec fn view(&self) -> AuthorityView {
        AuthorityView {
            name: self.name@,
            symbol: self.symbol@,
            mint_policy: self.mint_policy,
            burn_policy: self.burn_policy,
            next_id: if self.exhausted { u64::MAX + 1 } else { self.next_id as int },
        }
    }
}

impl TokenAuthority {
    /// The authority's invariant: its policies are those of the badge class.
    pub open spec fn wf(&self) -> bool {
        &&& self@.mint_policy == open_locked()
        &&& self@.burn_policy == open_locked()
        &&& 0 <= self@.next_id <= u64::MAX + 1
    }

    /// Creates the badge class "GachaFi Badge" (symbol "GFB") with open,
    /// locked mint and burn policies and no badge minted yet.
    pub fn new_badge_class() -> (a: TokenAuthority)
        ensures
            a.wf(),
            a@.name == "GachaFi Badge"@,
            a@.symbol == "GFB"@,
            a@.next_id == 0,
    {
        let policy = RolePolicy { rule: AccessRule::AllowAll, updater: AccessRule::DenyAll };
        TokenAuthority {
            name: "GachaFi Badge".to_owned(),
            symbol: "GFB".to_owned(),
            mint_policy: policy,
            burn_policy: policy,
            next_id: 0,
            exhausted: false,
        }
    }

    /// The mint policy.
    pub fn mint_policy(&self) -> (p: RolePolicy)
        ensures
            p == self@.mint_policy,
    {
        self.mint_policy
    }

    /// The burn policy.
    pub fn burn_policy(&self) -> (p: RolePolicy)
        ensures
            p == self@.burn_policy,
    {
        self.burn_policy
    }

    /// Whether another badge can still be minted.
    pub fn can_mint(&self) -> (r: bool)
        ensures
            r == (self@.next_id <= u64::MAX),
    {
        !self.exhausted
    }

    /// Mints one badge carrying `data` under an identifier never handed out
    /// before; fails, changing nothing, once every identifier is used.
    pub fn mint(&mut self, data: GachaFiBadgeData) -> (r: Result<Badge, MintError>)
        requires
            old(self).wf(),
        ensures
            final(self).wf(),
            final(self)@.name == old(self)@.name,
            final(self)@.symbol == old(self)@.symbol,
            match r {
                Ok(b) => old(self)@.next_id <= u64::MAX && b.id == old(self)@.next_id
                    && final(self)@.next_id == old(self)@.next_id + 1
                    && b.data.tier@ == data.tier@ && b.data.issued_at == data.issued_at
                    && b.data.nonce == data.nonce,
                Err(e) => e == MintError::IdentifiersExhausted
                    && old(self)@.next_id > u64::MAX && final(self)@ == old(self)@,
            },
    {
        if self.exhausted {
            return Err(MintError::IdentifiersExhausted);
        }
        let id = self.next_id;
        if id == u64::MAX {
            self.exhausted = true;
        } else {
            self.next_id = id + 1;
        }
        Ok(Badge { id, data })
    }

    /// Destroys `badge`. Its identifier stays used: it is never handed out
    /// again.
    pub fn burn(&mut self, badge: Badge)
        requires
            old(self).wf(),
        ensures
            final(self)@ == old(self)@,
    {
        let Badge { id: _, data: _ } = badge;
    }
}

} // verus!
