//! The access-control engine: static and dynamic allow-lists, time-bounded grants,
//! and the audit events that each decision produces.

use crate::account::{holds_account, same_account, AccountId};
use crate::config::FirewallConfig;
use crate::context::{now_millis, TemporaryAccessRecord};
use crate::error::Error;
use crate::net::{any_contains, IpAddress, IpNet};
use crate::urls::{http_scheme, is_http_scheme, parse_url, parsed_url, scheme_part, ParsedUrl};
use vstd::prelude::*;

verus! {

/// Which tier of the allow-list admitted a request.
#[derive(Clone, Copy, Debug, PartialEq, Eq, Structural)]
pub enum AccessType {
    Unrestricted,
    PermanentConfig,
    PermanentDynamic,
    Temporary,
}

impl AccessType {
    pub open spec fn text(self) -> Seq<char> {
        match self {
            AccessType::Unrestricted => "Unrestricted"@,
            AccessType::PermanentConfig => "Permanent (Config)"@,
            AccessType::PermanentDynamic => "Permanent (Dynamic)"@,
            AccessType::Temporary => "Temporary"@,
        }
    }

    /// The label carried by an `AccessGranted` event.
    pub fn as_str(&self) -> (r: &'static str)
        ensures
            r@ == self.text(),
    {
        match self {
            AccessType::Unrestricted => "Unrestricted",
            AccessType::PermanentConfig => "Permanent (Config)",
            AccessType::PermanentDynamic => "Permanent (Dynamic)",
            AccessType::Temporary => "Temporary",
        }
    }
}

/// The identity an access decision was made about.
#[derive(Clone, Copy, Debug, PartialEq, Eq)]
pub enum AccessSource {
    Ip(IpAddress),
    Account(AccountId),
}

/// A rule added to a dynamic allow-list.
#[derive(Clone, Copy, Debug, PartialEq, Eq)]
pub enum AccessRule {
    Ip(IpNet),
    Account(AccountId),
}

impl AccessRule {
    pub open spec fn type_text(self) -> Seq<char> {
        match self {
            AccessRule::Ip(_) => "IP"@,
            AccessRule::Account(_) => "Account"@,
        }
    }

    /// The `rule_type` label of a `RuleAdded` event.
    pub fn rule_type(&self) -> (r: &'static str)
        ensures
            r@ == self.type_text(),
    {
        match self {
            AccessRule::Ip(_) => "IP",
            AccessRule::Account(_) => "Account",
        }
    }
}

/// An audit event for the webhook sinks.
#[derive(Clone, Debug, PartialEq, Eq)]
pub enum WebhookEvent {
    AccessGranted { source: AccessSource, access_type: AccessType },
    AccessDenied { source: AccessSource },
    TemporaryAccessExpired { account: AccountId },
    RuleAdded { rule: AccessRule },
    WebhookRegistered { url: String },
}

/// One entry of the temporary-access table.
#[derive(Clone, Copy, Debug)]
struct TemporaryGrant {
    account: AccountId,
    record: TemporaryAccessRecord,
}

/// The state of a firewall as mathematical values.
pub struct FirewallView {
    pub static_ips: Seq<IpNet>,
    pub static_accounts: Seq<Seq<u8>>,
    pub unrestricted: bool,
    pub dynamic_ips: Seq<IpNet>,
    pub dynamic_accounts: Seq<Seq<u8>>,
    pub temporary: Map<Seq<u8>, TemporaryAccessRecord>,
    pub webhooks: Seq<Seq<char>>,
    /// Events produced and not yet taken for delivery, oldest first.
    pub events: Seq<WebhookEvent>,
}

impl FirewallView {
    /// The same state with one more event pending.
    pub open spec fn with_event(self, e: WebhookEvent) -> FirewallView {
        FirewallView { events: self.events.push(e), ..self }
    }

    pub open spec fn static_ip_hit(self, ip: IpAddress) -> bool {
        exists|i: int| 0 <= i < self.static_ips.len() && (#[trigger] self.static_ips[i]).contains(ip)
    }

    pub open spec fn dynamic_ip_hit(self, ip: IpAddress) -> bool {
        exists|i: int| 0 <= i < self.dynamic_ips.len() && (#[trigger] self.dynamic_ips[i]).contains(ip)
    }

    /// The tier that admits `ip`, checked in order: unrestricted, static, dynamic.
    pub open spec fn ip_decision(self, ip: IpAddress) -> Option<AccessType> {
        if self.unrestricted {
            Some(AccessType::Unrestricted)
        } else if self.static_ip_hit(ip) {
            Some(AccessType::PermanentConfig)
        } else if self.dynamic_ip_hit(ip) {
            Some(AccessType::PermanentDynamic)
        } else {
            None
        }
    }

    /// The event an IP check produces.
    pub open spec fn ip_event(self, ip: IpAddress) -> WebhookEvent {
        match self.ip_decision(ip) {
            Some(t) => WebhookEvent::AccessGranted { source: AccessSource::Ip(ip), access_type: t },
            None => WebhookEvent::AccessDenied { source: AccessSource::Ip(ip) },
        }
    }

    /// The tier that admits account `a` at time `now`, checked in order:
    /// unrestricted, static, dynamic, then a temporary grant still valid.
    pub open spec fn account_decision(self, a: Seq<u8>, now: i64) -> Option<AccessType> {
        if self.unrestricted {
            Some(AccessType::Unrestricted)
        } else if self.static_accounts.contains(a) {
            Some(AccessType::PermanentConfig)
        } else if self.dynamic_accounts.contains(a) {
            Some(AccessType::PermanentDynamic)
        } else if self.temporary.contains_key(a) && self.temporary[a].valid_at(now) {
            Some(AccessType::Temporary)
        } else {
            None
        }
    }

    /// The state after checking account `a` at time `now`: an admitted account gives
    /// an `AccessGranted` event; a lapsed grant that the check meets is removed and
    /// gives a `TemporaryAccessExpired` event; otherwise nothing changes.
    pub open spec fn after_account_check(self, a: AccountId, now: i64) -> FirewallView {
        match self.account_decision(a@, now) {
            Some(t) => self.with_event(
                WebhookEvent::AccessGranted { source: AccessSource::Account(a), access_type: t },
            ),
            None => if self.temporary.contains_key(a@) {
                FirewallView {
                    temporary: self.temporary.remove(a@),
                    ..self.with_event(WebhookEvent::TemporaryAccessExpired { account: a })
                }
            } else {
                self
            },
        }
    }

    /// The state after adding the dynamic prefix `p`.
    pub open spec fn after_ip_rule(self, p: IpNet) -> FirewallView {
        if self.dynamic_ips.contains(p) {
            self
        } else {
            FirewallView {
                dynamic_ips: self.dynamic_ips.push(p),
                ..self.with_event(WebhookEvent::RuleAdded { rule: AccessRule::Ip(p) })
            }
        }
    }

    /// The state after adding the dynamic account `a`.
    pub open spec fn after_account_rule(self, a: AccountId) -> FirewallView {
        if self.dynamic_accounts.contains(a@) {
            self
        } else {
            FirewallView {
                dynamic_accounts: self.dynamic_accounts.push(a@),
                ..self.with_event(WebhookEvent::RuleAdded { rule: AccessRule::Account(a) })
            }
        }
    }

    /// The state after granting `record` to `a`, replacing any earlier grant.
    pub open spec fn after_grant(self, a: Seq<u8>, record: TemporaryAccessRecord) -> FirewallView {
        FirewallView { temporary: self.temporary.insert(a, record), ..self }
    }

    /// `next` is this state with the serialized URL `h` appended to the webhooks and a
    /// `WebhookRegistered` event for it pending.
    pub open spec fn registers_webhook(self, next: FirewallView, h: Seq<char>) -> bool {
        &&& next.webhooks == self.webhooks.push(h)
        &&& next.events.len() == self.events.len() + 1
        &&& next.events.drop_last() == self.events
        &&& next.events.last() matches WebhookEvent::WebhookRegistered { url: u } && u@ == h
        &&& next == (FirewallView { webhooks: next.webhooks, events: next.events, ..self })
    }

    /// The state after removing every grant that is no longer valid at `now`.
    pub open spec fn after_sweep(self, now: i64) -> FirewallView {
        FirewallView { temporary: swept(self.temporary, now), ..self }
    }
}

/// A text that a webhook may be registered with: a URL whose scheme is `http` or `https`.
pub open spec fn webhook_accepted(url: Seq<char>) -> bool {
    parsed_url(url) matches Some(h) && is_http_scheme(scheme_part(h))
}

/// The grants of `m` still valid at `now`.
pub open spec fn swept(m: Map<Seq<u8>, TemporaryAccessRecord>, now: i64) -> Map<
    Seq<u8>,
    TemporaryAccessRecord,
> {
    Map::new(|k: Seq<u8>| m.contains_key(k) && m[k].valid_at(now), |k: Seq<u8>| m[k])
}

/// The access-control state of one gateway.
pub struct Firewall {
    allow_ips_config: Vec<IpNet>,
    allow_accounts_config: Vec<AccountId>,
    allow_unrestricted_access: bool,
    allow_ips_dynamic: Vec<IpNet>,
    allow_accounts_dynamic: Vec<AccountId>,
    temporary_access: Vec<TemporaryGrant>,
    temporary_model: Ghost<Map<Seq<u8>, TemporaryAccessRecord>>,
    webhooks: Vec<String>,
    events: Vec<WebhookEvent>,
}

impl View for Firewall {
    type V = FirewallView;

    closed spec fn view(&self) -> FirewallView {
        FirewallView {
            static_ips: self.allow_ips_config@,
            static_accounts: self.allow_accounts_config@.map_values(|a: AccountId| a@),
            unrestricted: self.allow_unrestricted_access,
            dynamic_ips: self.allow_ips_dynamic@,
            dynamic_accounts: self.allow_accounts_dynamic@.map_values(|a: AccountId| a@),
            temporary: self.temporary_model@,
            webhooks: self.webhooks@.map_values(|s: String| s@),
            events: self.events@,
        }
    }
}

impl Firewall {
    /// Every prefix fits its family, the dynamic lists hold no repeated entry, and the
    /// grant table holds exactly the grants of the model, one entry per account.
    pub closed spec fn wf(&self) -> bool {
        let v = self.temporary_access@;
        let m = self.temporary_model@;
        &&& forall|i: int|
            0 <= i < self.allow_ips_config@.len() ==> (#[trigger] self.allow_ips_config@[i]).wf()
        &&& forall|i: int|
            0 <= i < self.allow_ips_dynamic@.len() ==> (#[trigger] self.allow_ips_dynamic@[i]).wf()
        &&& self.allow_ips_dynamic@.no_duplicates()
        &&& forall|i: int, j: int|
            0 <= i < self.allow_accounts_dynamic@.len() && 0 <= j < self.allow_accounts_dynamic@.len()
                && i != j ==> (#[trigger] self.allow_accounts_dynamic@[i])@ != (
            #[trigger] self.allow_accounts_dynamic@[j])@
        &&& forall|i: int|
            0 <= i < v.len() ==> m.contains_key((#[trigger] v[i]).account@) && m[v[i].account@]
                == v[i].record
        &&& forall|i: int, j: int|
            0 <= i < v.len() && 0 <= j < v.len() && i != j ==> (#[trigger] v[i]).account@ != (
            #[trigger] v[j]).account@
        &&& forall|k: Seq<u8>|
            #[trigger] m.contains_key(k) ==> exists|i: int|
                0 <= i < v.len() && (#[trigger] v[i]).account@ == k
    }

    /// A firewall with the static lists of `config`, empty dynamic lists, no grants,
    /// and the webhooks `webhook_config`.
    pub fn new(config: &FirewallConfig, webhook_config: &Vec<String>) -> (r: Firewall)
        requires
            config.wf(),
        ensures
            r.wf(),
            r@.static_ips == config.allow_ips@,
            r@.static_accounts == config.allow_accounts@.map_values(|a: AccountId| a@),
            r@.unrestricted == config.allow_unrestricted_access,
            r@.dynamic_ips == Seq::<IpNet>::empty(),
            r@.dynamic_accounts == Seq::<Seq<u8>>::empty(),
            r@.temporary == Map::<Seq<u8>, TemporaryAccessRecord>::empty(),
            r@.webhooks == webhook_config@.map_values(|s: String| s@),
            r@.events == Seq::<WebhookEvent>::empty(),
    {
        let mut ips: Vec<IpNet> = Vec::new();
        let mut i: usize = 0;
        while i < config.allow_ips.len()
            invariant
                i <= config.allow_ips@.len(),
                ips@ == config.allow_ips@.subrange(0, i as int),
            decreases config.allow_ips@.len() - i,
        {
            ips.push(config.allow_ips[i]);
            i = i + 1;
            assert(ips@ =~= config.allow_ips@.subrange(0, i as int));
        }
        assert(ips@ =~= config.allow_ips@);
        let mut accounts: Vec<AccountId> = Vec::new();
        let mut j: usize = 0;
        while j < config.allow_accounts.len()
            invariant
                j <= config.allow_accounts@.len(),
                accounts@ == config.allow_accounts@.subrange(0, j as int),
            decreases config.allow_accounts@.len() - j,
        {
            accounts.push(config.allow_accounts[j]);
            j = j + 1;
            assert(accounts@ =~= config.allow_accounts@.subrange(0, j as int));
        }
        assert(accounts@ =~= config.allow_accounts@);
        let mut hooks: Vec<String> = Vec::new();
        let mut h: usize = 0;
        while h < webhook_config.len()
            invariant
                h <= webhook_config@.len(),
                hooks@.len() == h,
                forall|k: int| 0 <= k < h ==> (#[trigger] hooks@[k])@ == webhook_config@[k]@,
            decreases webhook_config@.len() - h,
        {
            hooks.push(webhook_config[h].clone());
            h = h + 1;
        }
        let r = Firewall {
            allow_ips_config: ips,
            allow_accounts_config: accounts,
            allow_unrestricted_access: config.allow_unrestricted_access,
            allow_ips_dynamic: Vec::new(),
            allow_accounts_dynamic: Vec::new(),
            temporary_access: Vec::new(),
            temporary_model: Ghost(Map::empty()),
            webhooks: hooks,
            events: Vec::new(),
        };
        assert(r@.webhooks =~= webhook_config@.map_values(|s: String| s@));
        r
    }

    /// Index of the grant held for `a`, if any.
    fn find_grant(&self, a: &AccountId) -> (r: Option<usize>)
        requires
            self.wf(),
        ensures
            match r {
                Some(i) => {
                    &&& i < self.temporary_access@.len()
                    &&& self.temporary_access@[i as int].account@ == a@
                    &&& self@.temporary.contains_key(a@)
                    &&& self@.temporary[a@] == self.temporary_access@[i as int].record
                },
                None => !self@.temporary.contains_key(a@),
            },
    {
        let mut i: usize = 0;
        while i < self.temporary_access.len()
            invariant
                self.wf(),
                i <= self.temporary_access@.len(),
                forall|k: int| 0 <= k < i ==> (#[trigger] self.temporary_access@[k]).account@ != a@,
            decreases self.temporary_access@.len() - i,
        {
            if same_account(&self.temporary_access[i].account, a) {
                assert(self.temporary_model@.contains_key(self.temporary_access@[i as int].account@));
                return Some(i);
            }
            i = i + 1;
        }
        proof {
            if self.temporary_model@.contains_key(a@) {
                let j = choose|j: int|
                    0 <= j < self.temporary_access@.len()
                        && (#[trigger] self.temporary_access@[j]).account@ == a@;
                assert(self.temporary_access@[j].account@ != a@);
            }
        }
        None
    }

    /// Removes the grant at index `i`.
    fn remove_grant(&mut self, i: usize)
        requires
            old(self).wf(),
            i < old(self).temporary_access@.len(),
        ensures
            final(self).wf(),
            final(self)@ == (FirewallView {
                temporary: old(self)@.temporary.remove(old(self).temporary_access@[i as int].account@),
                ..old(self)@
            }),
            final(self).temporary_access@ == old(self).temporary_access@.remove(i as int),
    {
        let ghost old_v = self.temporary_access@;
        let ghost key = old_v[i as int].account@;
        let ghost m = self.temporary_model@.remove(key);
        self.temporary_access.remove(i);
        self.temporary_model = Ghost(m);
        let ghost v = self.temporary_access@;
        assert forall|j: int| 0 <= j < v.len() implies m.contains_key((#[trigger] v[j]).account@)
            && m[v[j].account@] == v[j].record by {
            let oj = if j < i { j } else { j + 1 };
            assert(v[j] == old_v[oj]);
            assert(old_v[oj].account@ != old_v[i as int].account@);
        }
        assert forall|a: int, b: int|
            0 <= a < v.len() && 0 <= b < v.len() && a != b implies (#[trigger] v[a]).account@ != (
            #[trigger] v[b]).account@ by {
            let oa = if a < i { a } else { a + 1 };
            let ob = if b < i { b } else { b + 1 };
            assert(v[a] == old_v[oa]);
            assert(v[b] == old_v[ob]);
        }
        assert forall|k: Seq<u8>| #[trigger] m.contains_key(k) implies exists|j: int|
            0 <= j < v.len() && (#[trigger] v[j]).account@ == k by {
            let oj = choose|oj: int| 0 <= oj < old_v.len() && (#[trigger] old_v[oj]).account@ == k;
            assert(oj != i);
            let j = if oj < i { oj } else { oj - 1 };
            assert(v[j] == old_v[oj]);
        }
    }

    /// Grants `record` to `a`, replacing the grant `a` held before.
    fn put_grant(&mut self, a: &AccountId, record: TemporaryAccessRecord)
        requires
            old(self).wf(),
        ensures
            final(self).wf(),
            final(self)@ == old(self)@.after_grant(a@, record),
    {
        let ghost m = self.temporary_model@.insert(a@, record);
        let ghost old_v = self.temporary_access@;
        let entry = TemporaryGrant { account: *a, record };
        match self.find_grant(a) {
            Some(i) => {
                self.temporary_access.set(i, entry);
                self.temporary_model = Ghost(m);
                let ghost v = self.temporary_access@;
                assert forall|k: Seq<u8>| #[trigger] m.contains_key(k) implies exists|j: int|
                    0 <= j < v.len() && (#[trigger] v[j]).account@ == k by {
                    if k != a@ {
                        let oj = choose|oj: int|
                            0 <= oj < old_v.len() && (#[trigger] old_v[oj]).account@ == k;
                        assert(v[oj] == old_v[oj]);
                    } else {
                        assert(v[i as int].account@ == k);
                    }
                }
            },
            None => {
                self.temporary_access.push(entry);
                self.temporary_model = Ghost(m);
                let ghost v = self.temporary_access@;
                assert(v[old_v.len() as int] == entry);
                assert forall|j: int| 0 <= j < old_v.len() implies (#[trigger] v[j]).account@
                    != a@ by {
                    assert(v[j] == old_v[j]);
                }
                assert forall|k: Seq<u8>| #[trigger] m.contains_key(k) implies exists|j: int|
                    0 <= j < v.len() && (#[trigger] v[j]).account@ == k by {
                    if k != a@ {
                        let oj = choose|oj: int|
                            0 <= oj < old_v.len() && (#[trigger] old_v[oj]).account@ == k;
                        assert(v[oj] == old_v[oj]);
                    } else {
                        assert(v[old_v.len() as int].account@ == k);
                    }
                }
            },
        }
        assert(self@.temporary =~= old(self)@.temporary.insert(a@, record));
    }

    /// Checks an account against the current time; see `is_account_allowed_at`.
    pub fn is_account_allowed(&mut self, account: &AccountId) -> (r: bool)
        requires
            old(self).wf(),
        ensures
            final(self).wf(),
            exists|now: i64|
                r == (old(self)@.account_decision(account@, now) is Some) && final(self)@ == old(
                    self,
                )@.after_account_check(*account, now),
            old(self)@.unrestricted ==> r,
    {
        let now = now_millis();
        self.is_account_allowed_at(account, now)
    }

    /// Adds `ip_network` to the dynamic prefixes. Adding a prefix already there changes
    /// nothing; a new one gives a `RuleAdded` event.
    pub fn add_ip_rule(&mut self, ip_network: IpNet) -> (r: Result<(), Error>)
        requires
            old(self).wf(),
            ip_network.wf(),
        ensures
            final(self).wf(),
            r is Ok,
            final(self)@ == old(self)@.after_ip_rule(ip_network),
    {
        let mut i: usize = 0;
        while i < self.allow_ips_dynamic.len()
            invariant
                self.wf(),
                i <= self.allow_ips_dynamic@.len(),
                forall|k: int| 0 <= k < i ==> self.allow_ips_dynamic@[k] != ip_network,
            decreases self.allow_ips_dynamic@.len() - i,
        {
            if self.allow_ips_dynamic[i] == ip_network {
                return Ok(());
            }
            i = i + 1;
        }
        let ghost before = self.allow_ips_dynamic@;
        self.allow_ips_dynamic.push(ip_network);
        self.events.push(WebhookEvent::RuleAdded { rule: AccessRule::Ip(ip_network) });
        proof {
            assert forall|k: int| 0 <= k < self.allow_ips_dynamic@.len() implies (
            #[trigger] self.allow_ips_dynamic@[k]).wf() by {
                if k < before.len() {
                    assert(self.allow_ips_dynamic@[k] == before[k]);
                }
            }
        }
        Ok(())
    }

    /// Adds `account` to the dynamic accounts. Adding one already there changes
    /// nothing; a new one gives a `RuleAdded` event.
    pub fn add_account_rule(&mut self, account: AccountId) -> (r: Result<(), Error>)
        requires
            old(self).wf(),
        ensures
            final(self).wf(),
            r is Ok,
            final(self)@ == old(self)@.after_account_rule(account),
    {
        let ghost before = self@;
        if holds_account(&self.allow_accounts_dynamic, &account) {
            proof {
                let i = choose|i: int|
                    0 <= i < self.allow_accounts_dynamic@.len()
                        && (#[trigger] self.allow_accounts_dynamic@[i])@ == account@;
                assert(before.dynamic_accounts[i] == account@);
            }
            return Ok(());
        }
        proof {
            if before.dynamic_accounts.contains(account@) {
                let i = choose|i: int|
                    0 <= i < before.dynamic_accounts.len() && before.dynamic_accounts[i] == account@;
                assert(self.allow_accounts_dynamic@[i]@ == account@);
            }
        }
        self.allow_accounts_dynamic.push(account);
        self.events.push(WebhookEvent::RuleAdded { rule: AccessRule::Account(account) });
        assert(self@.dynamic_accounts =~= before.dynamic_accounts.push(account@));
        Ok(())
    }

    /// Grants `record` to `account`, replacing any earlier grant. A record that
    /// lapses no later than it starts is refused with `InvalidInput`.
    pub fn grant_temporary_access(&mut self, account: AccountId, record: TemporaryAccessRecord) -> (r:
        Result<(), Error>)
        requires
            old(self).wf(),
        ensures
            final(self).wf(),
            r is Ok <==> record.granted_at < record.expires_at,
            r is Ok ==> final(self)@ == old(self)@.after_grant(account@, record),
            r matches Err(e) ==> e is InvalidInput && final(self)@ == old(self)@,
    {
        if record.expires_at <= record.granted_at {
            return Err(Error::InvalidInput(String::from_str("grant must expire after it starts")));
        }
        self.put_grant(&account, record);
        Ok(())
    }

    /// Removes every grant no longer valid at `now` (`expires_at <= now`). No event
    /// is produced.
    pub fn sweep_expired(&mut self, now: i64)
        requires
            old(self).wf(),
        ensures
            final(self).wf(),
            final(self)@ == old(self)@.after_sweep(now),
    {
        let ghost v0 = self@;
        let ghost m0 = self.temporary_model@;
        let mut i: usize = 0;
        while i < self.temporary_access.len()
            invariant
                self.wf(),
                i <= self.temporary_access@.len(),
                self@ == (FirewallView { temporary: self@.temporary, ..v0 }),
                m0 == v0.temporary,
                forall|k: Seq<u8>|
                    #[trigger] self@.temporary.contains_key(k) ==> m0.contains_key(k)
                        && self@.temporary[k] == m0[k],
                forall|k: Seq<u8>|
                    #[trigger] m0.contains_key(k) && m0[k].valid_at(now)
                        ==> self@.temporary.contains_key(k),
                forall|j: int|
                    0 <= j < i ==> (#[trigger] self.temporary_access@[j]).record.valid_at(now),
            decreases self.temporary_access@.len() - i,
        {
            if self.temporary_access[i].record.expires_at <= now {
                let ghost key = self.temporary_access@[i as int].account@;
                let ghost before = self.temporary_access@;
                proof {
                    assert(self@.temporary.contains_key(key));
                    assert(!m0[key].valid_at(now));
                }
                self.remove_grant(i);
                proof {
                    assert forall|j: int| 0 <= j < i implies (
                    #[trigger] self.temporary_access@[j]).record.valid_at(now) by {
                        assert(self.temporary_access@[j] == before[j]);
                    }
                }
            } else {
                i = i + 1;
            }
        }
        proof {
            let m = self.temporary_model@;
            assert forall|k: Seq<u8>| #[trigger] m.contains_key(k) implies m0[k].valid_at(now) by {
                let j = choose|j: int|
                    0 <= j < self.temporary_access@.len()
                        && (#[trigger] self.temporary_access@[j]).account@ == k;
                assert(self.temporary_access@[j].record.valid_at(now));
            }
            assert(m =~= swept(m0, now));
        }
    }

    /// Removes every grant that has lapsed by the current time; see `sweep_expired`.
    pub fn cleanup_expired_access(&mut self)
        requires
            old(self).wf(),
        ensures
            final(self).wf(),
            exists|now: i64| final(self)@ == old(self)@.after_sweep(now),
    {
        let now = now_millis();
        self.sweep_expired(now);
    }

    /// Registers an already parsed webhook URL. Its scheme must be `http` or `https`,
    /// else `InvalidInput` and nothing changes. The serialized URL is appended to the
    /// webhooks and a `WebhookRegistered` event is produced; it goes to every webhook,
    /// the new one included.
    pub fn register_parsed_webhook(&mut self, url: ParsedUrl) -> (r: Result<(), Error>)
        requires
            old(self).wf(),
        ensures
            final(self).wf(),
            r is Ok <==> is_http_scheme(url.scheme@),
            r is Ok ==> old(self)@.registers_webhook(final(self)@, url.href@),
            r matches Err(e) ==> e is InvalidInput && final(self)@ == old(self)@,
    {
        if !http_scheme(url.scheme.as_str()) {
            return Err(Error::InvalidInput(String::from_str("webhook URL must use http or https")));
        }
        let ghost before = self@;
        let ghost href = url.href@;
        let event_url = url.href.clone();
        self.webhooks.push(url.href);
        self.events.push(WebhookEvent::WebhookRegistered { url: event_url });
        assert(self@.webhooks =~= before.webhooks.push(href));
        assert(self@.events.drop_last() =~= before.events);
        assert(self.temporary_access@ == old(self).temporary_access@);
        assert(self.temporary_model@ == old(self).temporary_model@);
        assert(self.allow_ips_config@ == old(self).allow_ips_config@);
        assert(self.allow_ips_dynamic@ == old(self).allow_ips_dynamic@);
        assert(self.allow_accounts_dynamic@ == old(self).allow_accounts_dynamic@);
        Ok(())
    }

    /// Registers a webhook given as text: it must parse as a URL; see
    /// `register_parsed_webhook` for the rest.
    pub fn add_webhook(&mut self, url: &str) -> (r: Result<(), Error>)
        requires
            old(self).wf(),
        ensures
            final(self).wf(),
            r is Ok <==> webhook_accepted(url@),
            r is Ok ==> old(self)@.registers_webhook(final(self)@, parsed_url(url@)->0),
            r matches Err(e) ==> e is InvalidInput && final(self)@ == old(self)@,
    {
        match parse_url(url) {
            Some(u) => self.register_parsed_webhook(u),
            None => Err(Error::InvalidInput(String::from_str("webhook URL does not parse"))),
        }
    }

    /// Hands over the pending events, oldest first, and clears them.
    pub fn take_events(&mut self) -> (r: Vec<WebhookEvent>)
        requires
            old(self).wf(),
        ensures
            final(self).wf(),
            r@ == old(self)@.events,
            final(self)@ == (FirewallView { events: Seq::empty(), ..old(self)@ }),
    {
        let mut out: Vec<WebhookEvent> = Vec::new();
        std::mem::swap(&mut out, &mut self.events);
        assert(self.temporary_access@ == old(self).temporary_access@);
        assert(self.temporary_model@ == old(self).temporary_model@);
        assert(self.allow_ips_config@ == old(self).allow_ips_config@);
        assert(self.allow_ips_dynamic@ == old(self).allow_ips_dynamic@);
        out
    }

    /// The registered webhook URLs, in registration order.
    pub fn webhooks(&self) -> (r: &Vec<String>)
        ensures
            r@.map_values(|s: String| s@) == self@.webhooks,
    {
        &self.webhooks
    }

    /// Whether every request is admitted whatever its origin.
    pub fn is_unrestricted(&self) -> (r: bool)
        ensures
            r == self@.unrestricted,
    {
        self.allow_unrestricted_access
    }

    /// Checks an IP address: unrestricted, then the static prefixes, then the dynamic
    /// ones. Temporary grants are kept per account and play no part here. Records an
    /// `AccessGranted` event naming the tier, or an `AccessDenied` event.
    pub fn is_allowed(&mut self, ip: &IpAddress) -> (r: bool)
        requires
            old(self).wf(),
        ensures
            final(self).wf(),
            r == (old(self)@.ip_decision(*ip) is Some),
            final(self)@ == old(self)@.with_event(old(self)@.ip_event(*ip)),
            old(self)@.unrestricted ==> r,
            old(self)@.static_ip_hit(*ip) ==> r,
    {
        let static_hit = any_contains(&self.allow_ips_config, ip);
        let dynamic_hit = any_contains(&self.allow_ips_dynamic, ip);
        assert(self@.static_ips == self.allow_ips_config@);
        assert(self@.dynamic_ips == self.allow_ips_dynamic@);
        assert(static_hit == self@.static_ip_hit(*ip));
        assert(dynamic_hit == self@.dynamic_ip_hit(*ip));
        let decision = if self.allow_unrestricted_access {
            Some(AccessType::Unrestricted)
        } else if static_hit {
            Some(AccessType::PermanentConfig)
        } else if dynamic_hit {
            Some(AccessType::PermanentDynamic)
        } else {
            None
        };
        let event = match decision {
            Some(t) => WebhookEvent::AccessGranted { source: AccessSource::Ip(*ip), access_type: t },
            None => WebhookEvent::AccessDenied { source: AccessSource::Ip(*ip) },
        };
        self.events.push(event);
        match decision {
            Some(_) => true,
            None => false,
        }
    }

    /// Checks an account at time `now` (milliseconds since the epoch): unrestricted,
    /// the static accounts, the dynamic ones, then a temporary grant. A grant that has
    /// lapsed (`expires_at <= now`) is removed and reported by a
    /// `TemporaryAccessExpired` event; an admitted account gives `AccessGranted`.
    pub fn is_account_allowed_at(&mut self, account: &AccountId, now: i64) -> (r: bool)
        requires
            old(self).wf(),
        ensures
            final(self).wf(),
            r == (old(self)@.account_decision(account@, now) is Some),
            final(self)@ == old(self)@.after_account_check(*account, now),
            old(self)@.unrestricted ==> r,
    {
        let ghost before = self@;
        let static_hit = holds_account(&self.allow_accounts_config, account);
        let dynamic_hit = holds_account(&self.allow_accounts_dynamic, account);
        proof {
            if static_hit {
                let i = choose|i: int|
                    0 <= i < self.allow_accounts_config@.len()
                        && (#[trigger] self.allow_accounts_config@[i])@ == account@;
                assert(before.static_accounts[i] == account@);
            }
            if before.static_accounts.contains(account@) {
                let i = choose|i: int|
                    0 <= i < before.static_accounts.len() && before.static_accounts[i] == account@;
                assert(self.allow_accounts_config@[i]@ == account@);
            }
            if dynamic_hit {
                let i = choose|i: int|
                    0 <= i < self.allow_accounts_dynamic@.len()
                        && (#[trigger] self.allow_accounts_dynamic@[i])@ == account@;
                assert(before.dynamic_accounts[i] == account@);
            }
            if before.dynamic_accounts.contains(account@) {
                let i = choose|i: int|
                    0 <= i < before.dynamic_accounts.len() && before.dynamic_accounts[i] == account@;
                assert(self.allow_accounts_dynamic@[i]@ == account@);
            }
        }
        let decision = if self.allow_unrestricted_access {
            Some(AccessType::Unrestricted)
        } else if static_hit {
            Some(AccessType::PermanentConfig)
        } else if dynamic_hit {
            Some(AccessType::PermanentDynamic)
        } else {
            match self.find_grant(account) {
                Some(i) => {
                    if self.temporary_access[i].record.expires_at > now {
                        Some(AccessType::Temporary)
                    } else {
                        self.remove_grant(i);
                        self.events.push(
                            WebhookEvent::TemporaryAccessExpired { account: *account },
                        );
                        None
                    }
                },
                None => None,
            }
        };
        match decision {
            Some(t) => {
                self.events.push(
                    WebhookEvent::AccessGranted { source: AccessSource::Account(*account), access_type: t },
                );
                true
            },
            None => false,
        }
    }
}

/// An address inside a static prefix is admitted in every state that the firewall's
/// operations lead to: none of them changes the static prefixes or the unrestricted flag.
pub proof fn lemma_static_monotone(
    s: FirewallView,
    ip: IpAddress,
    p: IpNet,
    a: AccountId,
    r: TemporaryAccessRecord,
    now: i64,
)
    requires
        s.static_ip_hit(ip),
    ensures
        s.ip_decision(ip) is Some,
        s.after_ip_rule(p).static_ip_hit(ip),
        s.after_account_rule(a).static_ip_hit(ip),
        s.after_grant(a@, r).static_ip_hit(ip),
        s.after_account_check(a, now).static_ip_hit(ip),
        s.after_sweep(now).static_ip_hit(ip),
        s.with_event(s.ip_event(ip)).static_ip_hit(ip),
        (FirewallView { events: Seq::empty(), ..s }).static_ip_hit(ip),
{
    let i = choose|i: int| 0 <= i < s.static_ips.len() && (#[trigger] s.static_ips[i]).contains(ip);
    assert(s.after_ip_rule(p).static_ips[i].contains(ip));
    assert(s.after_account_rule(a).static_ips[i].contains(ip));
    assert(s.after_grant(a@, r).static_ips[i].contains(ip));
    assert(s.after_account_check(a, now).static_ips[i].contains(ip));
    assert(s.after_sweep(now).static_ips[i].contains(ip));
    assert(s.with_event(s.ip_event(ip)).static_ips[i].contains(ip));
    assert((FirewallView { events: Seq::empty(), ..s }).static_ips[i].contains(ip));
}

/// With unrestricted access every address and every account is admitted, at any time.
pub proof fn lemma_unrestricted_dominates(s: FirewallView, ip: IpAddress, a: Seq<u8>, now: i64)
    requires
        s.unrestricted,
    ensures
        s.ip_decision(ip) == Some(AccessType::Unrestricted),
        s.account_decision(a, now) == Some(AccessType::Unrestricted),
{
}

/// Adding the same dynamic prefix twice leaves the state, events included, exactly
/// as adding it once; a prefix that was new gives exactly one `RuleAdded` event.
pub proof fn lemma_ip_rule_idempotent(s: FirewallView, p: IpNet)
    ensures
        s.after_ip_rule(p).after_ip_rule(p) == s.after_ip_rule(p),
        !s.dynamic_ips.contains(p) ==> s.after_ip_rule(p).events == s.events.push(
            WebhookEvent::RuleAdded { rule: AccessRule::Ip(p) },
        ),
        s.dynamic_ips.contains(p) ==> s.after_ip_rule(p) == s,
{
    if !s.dynamic_ips.contains(p) {
        let t = s.after_ip_rule(p);
        assert(t.dynamic_ips[t.dynamic_ips.len() - 1] == p);
    }
}

/// Adding the same dynamic account twice leaves the state exactly as adding it once;
/// an account that was new gives exactly one `RuleAdded` event.
pub proof fn lemma_account_rule_idempotent(s: FirewallView, a: AccountId)
    ensures
        s.after_account_rule(a).after_account_rule(a) == s.after_account_rule(a),
        !s.dynamic_accounts.contains(a@) ==> s.after_account_rule(a).events == s.events.push(
            WebhookEvent::RuleAdded { rule: AccessRule::Account(a) },
        ),
{
    if !s.dynamic_accounts.contains(a@) {
        let t = s.after_account_rule(a);
        assert(t.dynamic_accounts[t.dynamic_accounts.len() - 1] == a@);
    }
}

/// A second grant to the same account replaces the first: the result is as if only
/// the second had been made.
pub proof fn lemma_grant_overwrite(
    s: FirewallView,
    a: Seq<u8>,
    r1: TemporaryAccessRecord,
    r2: TemporaryAccessRecord,
)
    ensures
        s.after_grant(a, r1).after_grant(a, r2) == s.after_grant(a, r2),
        s.after_grant(a, r1).after_grant(a, r2).temporary[a] == r2,
{
    assert(s.after_grant(a, r1).after_grant(a, r2).temporary =~= s.after_grant(a, r2).temporary);
}

/// After a sweep at `now` no grant remains with `expires_at <= now`, every grant
/// still valid at `now` remains unchanged, and nothing else changes.
pub proof fn lemma_sweep(s: FirewallView, now: i64)
    ensures
        forall|k: Seq<u8>| #[trigger]
            s.after_sweep(now).temporary.contains_key(k) ==> s.after_sweep(now).temporary[k].expires_at
                > now,
        forall|k: Seq<u8>|
            #[trigger] s.temporary.contains_key(k) && s.temporary[k].expires_at > now ==> s.after_sweep(
                now,
            ).temporary.contains_key(k) && s.after_sweep(now).temporary[k] == s.temporary[k],
        s.after_sweep(now) == (FirewallView { temporary: s.after_sweep(now).temporary, ..s }),
{
}

/// A grant admits its account exactly while `now < expires_at`. Once it has lapsed,
/// for an account on no permanent list, the first check refuses, removes the grant
/// and gives exactly one `TemporaryAccessExpired` event; later checks refuse and give
/// no further event.
pub proof fn lemma_temporary_expiry(s: FirewallView, a: AccountId, now: i64, later: i64)
    requires
        s.temporary.contains_key(a@),
    ensures
        now < s.temporary[a@].expires_at ==> s.account_decision(a@, now) is Some,
        ({
            let permanent = s.unrestricted || s.static_accounts.contains(a@)
                || s.dynamic_accounts.contains(a@);
            let t = s.after_account_check(a, now);
            !permanent && now >= s.temporary[a@].expires_at ==> {
                &&& s.account_decision(a@, now) is None
                &&& t.events == s.events.push(WebhookEvent::TemporaryAccessExpired { account: a })
                &&& !t.temporary.contains_key(a@)
                &&& t.account_decision(a@, later) is None
                &&& t.after_account_check(a, later) == t
            }
        }),
{
}

} // verus!
