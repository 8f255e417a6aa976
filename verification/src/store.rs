//! The in-memory session store: the accounts map (keyed by account id) and
//! the settings record.  Every mutation leaves the store well formed; the
//! binary mirrors each mutation to durable storage right after it.

use vstd::prelude::*;
use crate::settings::Settings;
use crate::text;

verus! {

/// One stored account.
#[derive(Clone, Debug)]
pub struct Account {
    pub id: String,
    pub name: String,
    pub username: String,
    pub password: String,
    pub category: String,
    pub last_login: Option<String>,
    pub game_type: String,
}

impl Account {
    /// An exact copy, field by field.
    pub fn duplicate(&self) -> (r: Account)
        ensures
            r == *self,
    {
        Account {
            id: self.id.clone(),
            name: self.name.clone(),
            username: self.username.clone(),
            password: self.password.clone(),
            category: self.category.clone(),
            last_login: match &self.last_login {
                Option::Some(s) => Option::Some(s.clone()),
                Option::None => Option::None,
            },
            game_type: self.game_type.clone(),
        }
    }
}

/// A saved list of category names.
#[derive(Clone, Debug)]
pub struct Categories {
    pub categories: Vec<String>,
}

/// No two stored accounts share an id.
pub open spec fn unique_ids(s: Seq<Account>) -> bool {
    forall|i: int, j: int| 0 <= i < j < s.len() ==> s[i].id@ != s[j].id@
}

/// Relies on chrono's `Utc::now` and `DateTime::to_rfc3339`: the current UTC
/// time rendered as an RFC 3339 timestamp such as
/// `2018-01-26T18:30:09+00:00`.  The rendering always writes a full date and
/// time, so it is never empty.  `Utc::now` panics only when the system clock
/// reads before the Unix epoch.
#[verifier::external_body]
fn utc_now_rfc3339() -> (r: String)
    ensures
        r@.len() > 0,
{
    chrono::Utc::now().to_rfc3339()
}

/// The session store: every account plus the settings record.
pub struct SessionStore {
    pub accounts: Vec<Account>,
    pub settings: Settings,
}

impl SessionStore {
    /// Well-formedness: account ids are unique.
    pub open spec fn wf(self) -> bool {
        unique_ids(self.accounts@)
    }

    /// An empty store over the given settings.
    pub fn new(settings: Settings) -> (r: SessionStore)
        ensures
            r.accounts@.len() == 0,
            r.settings == settings,
            r.wf(),
    {
        SessionStore { accounts: Vec::new(), settings }
    }

    /// Index of the account with id `id`, if one is stored.
    fn find_index(&self, id: &str) -> (r: Option<usize>)
        ensures
            r matches Option::Some(i) ==> i < self.accounts@.len()
                && self.accounts@[i as int].id@ == id@,
            r is None ==> forall|q: int|
                0 <= q < self.accounts@.len() ==> self.accounts@[q].id@ != id@,
    {
        let mut i: usize = 0;
        while i < self.accounts.len()
            invariant
                i <= self.accounts@.len(),
                forall|q: int| 0 <= q < i ==> self.accounts@[q].id@ != id@,
            decreases self.accounts@.len() - i,
        {
            if text::str_eq(self.accounts[i].id.as_str(), id) {
                return Option::Some(i);
            }
            i += 1;
        }
        Option::None
    }

    /// Insert `account`, replacing any stored account with the same id.
    pub fn save_account(&mut self, account: Account)
        requires
            old(self).wf(),
        ensures
            final(self).wf(),
            final(self).settings == old(self).settings,
            (exists|i: int|
                0 <= i < old(self).accounts@.len() && old(self).accounts@[i].id@
                    == account.id@) ==> exists|i: int|
                {
                    &&& 0 <= i < old(self).accounts@.len()
                    &&& old(self).accounts@[i].id@ == account.id@
                    &&& final(self).accounts@ == old(self).accounts@.update(i, account)
                },
            (forall|i: int|
                0 <= i < old(self).accounts@.len() ==> old(self).accounts@[i].id@
                    != account.id@) ==> final(self).accounts@ == old(self).accounts@.push(
                account,
            ),
    {
        let ghost prev = self.accounts@;
        match self.find_index(account.id.as_str()) {
            Option::Some(i) => {
                proof {
                    assert(prev[i as int].id@ == account.id@);
                }
                self.accounts.set(i, account);
                proof {
                    assert forall|a: int, b: int|
                        0 <= a < b < self.accounts@.len() implies self.accounts@[a].id@
                        != self.accounts@[b].id@ by {
                        assert(prev[a].id@ != prev[b].id@);
                    }
                }
            },
            Option::None => {
                self.accounts.push(account);
                proof {
                    assert forall|a: int, b: int|
                        0 <= a < b < self.accounts@.len() implies self.accounts@[a].id@
                        != self.accounts@[b].id@ by {
                        if b < prev.len() {
                            assert(prev[a].id@ != prev[b].id@);
                        } else {
                            assert(prev[a].id@ != account.id@);
                        }
                    }
                }
            },
        }
    }

    /// Remove the account with id `id`; removing an absent id changes
    /// nothing.
    pub fn delete_account(&mut self, id: &str)
        requires
            old(self).wf(),
        ensures
            final(self).wf(),
            final(self).settings == old(self).settings,
            (exists|i: int|
                0 <= i < old(self).accounts@.len() && old(self).accounts@[i].id@ == id@)
                ==> exists|i: int|
                {
                    &&& 0 <= i < old(self).accounts@.len()
                    &&& old(self).accounts@[i].id@ == id@
                    &&& final(self).accounts@ == old(self).accounts@.remove(i)
                },
            (forall|i: int| 0 <= i < old(self).accounts@.len() ==> old(self).accounts@[i].id@ != id@)
                ==> final(self).accounts@ == old(self).accounts@,
            forall|q: int|
                0 <= q < final(self).accounts@.len() ==> final(self).accounts@[q].id@ != id@,
    {
        let ghost prev = self.accounts@;
        match self.find_index(id) {
            Option::Some(i) => {
                self.accounts.remove(i);
                proof {
                    assert forall|a: int, b: int|
                        0 <= a < b < self.accounts@.len() implies self.accounts@[a].id@
                        != self.accounts@[b].id@ by {
                        let pa = if a < i { a } else { a + 1 };
                        let pb = if b < i { b } else { b + 1 };
                        assert(self.accounts@[a] == prev[pa]);
                        assert(self.accounts@[b] == prev[pb]);
                        assert(prev[pa].id@ != prev[pb].id@);
                    }
                    assert forall|q: int|
                        0 <= q < self.accounts@.len() implies self.accounts@[q].id@ != id@ by {
                        let pq = if q < i { q } else { q + 1 };
                        assert(self.accounts@[q] == prev[pq]);
                        if pq != i {
                            assert(prev[pq].id@ != prev[i as int].id@);
                        }
                    }
                }
            },
            Option::None => {},
        }
    }

    /// A copy of every stored account, in storage order.
    pub fn get_accounts(&self) -> (r: Vec<Account>)
        ensures
            r@ == self.accounts@,
    {
        let mut r: Vec<Account> = Vec::new();
        let mut i: usize = 0;
        while i < self.accounts.len()
            invariant
                i <= self.accounts@.len(),
                r@ =~= self.accounts@.take(i as int),
            decreases self.accounts@.len() - i,
        {
            r.push(self.accounts[i].duplicate());
            i += 1;
        }
        proof {
            assert(self.accounts@.take(self.accounts@.len() as int) =~= self.accounts@);
        }
        r
    }

    /// A copy of the account with id `id`, if one is stored.
    pub fn get_account(&self, id: &str) -> (r: Option<Account>)
        ensures
            r matches Option::Some(a) ==> exists|i: int|
                0 <= i < self.accounts@.len() && self.accounts@[i] == a
                    && self.accounts@[i].id@ == id@,
            r is None ==> forall|q: int|
                0 <= q < self.accounts@.len() ==> self.accounts@[q].id@ != id@,
    {
        match self.find_index(id) {
            Option::Some(i) => Option::Some(self.accounts[i].duplicate()),
            Option::None => Option::None,
        }
    }

    /// A copy of the settings record.
    pub fn get_settings(&self) -> (r: Settings)
        ensures
            r == self.settings,
    {
        self.settings.duplicate()
    }

    /// Replace the settings record; the accounts keep their values.
    pub fn put_settings(&mut self, settings: Settings)
        requires
            old(self).wf(),
        ensures
            final(self).wf(),
            final(self).settings == settings,
            final(self).accounts@ == old(self).accounts@,
    {
        self.settings = settings;
    }

    /// Record a freshly resolved client path in the settings; everything
    /// else keeps its value.
    pub fn set_client_path(&mut self, path: String)
        requires
            old(self).wf(),
        ensures
            final(self).wf(),
            final(self).accounts@ == old(self).accounts@,
            final(self).settings.riot_client_path == path,
            final(self).settings.league_path == old(self).settings.league_path,
            final(self).settings.valorant_path == old(self).settings.valorant_path,
            final(self).settings.start_with_windows == old(self).settings.start_with_windows,
            final(self).settings.minimize_to_tray == old(self).settings.minimize_to_tray,
            final(self).settings.minimize_on_game_launch == old(
                self,
            ).settings.minimize_on_game_launch,
            final(self).settings.login_delay == old(self).settings.login_delay,
            final(self).settings.preferred_monitor == old(self).settings.preferred_monitor,
    {
        self.settings.riot_client_path = path;
    }

    /// Set the last-login timestamp of the account with id `id` to `ts`;
    /// reports whether such an account was stored.
    pub fn stamp_login(&mut self, id: &str, ts: String) -> (r: bool)
        requires
            old(self).wf(),
        ensures
            final(self).wf(),
            final(self).settings == old(self).settings,
            r <==> exists|i: int|
                0 <= i < old(self).accounts@.len() && old(self).accounts@[i].id@ == id@,
            r ==> exists|i: int|
                {
                    &&& 0 <= i < old(self).accounts@.len()
                    &&& old(self).accounts@[i].id@ == id@
                    &&& final(self).accounts@ == old(self).accounts@.update(
                        i,
                        Account { last_login: Option::Some(ts), ..old(self).accounts@[i] },
                    )
                },
            !r ==> final(self).accounts@ == old(self).accounts@,
    {
        let ghost prev = self.accounts@;
        match self.find_index(id) {
            Option::Some(i) => {
                let mut a = self.accounts[i].duplicate();
                a.last_login = Option::Some(ts);
                self.accounts.set(i, a);
                proof {
                    assert(prev[i as int].id@ == id@);
                    assert forall|x: int, y: int|
                        0 <= x < y < self.accounts@.len() implies self.accounts@[x].id@
                        != self.accounts@[y].id@ by {
                        assert(prev[x].id@ != prev[y].id@);
                    }
                }
                true
            },
            Option::None => false,
        }
    }

    /// Stamp the account's last login with the current UTC time, read from
    /// the system clock, and hand the timestamp back; `None` when no account
    /// has id `id`, in which case nothing changes.
    pub fn stamp_login_now(&mut self, id: &str) -> (r: Option<String>)
        requires
            old(self).wf(),
        ensures
            final(self).wf(),
            final(self).settings == old(self).settings,
            r matches Option::Some(ts) ==> ts@.len() > 0 && exists|i: int|
                {
                    &&& 0 <= i < old(self).accounts@.len()
                    &&& old(self).accounts@[i].id@ == id@
                    &&& final(self).accounts@ == old(self).accounts@.update(
                        i,
                        Account { last_login: Option::Some(ts), ..old(self).accounts@[i] },
                    )
                },
            r is None ==> final(self).accounts@ == old(self).accounts@ && forall|q: int|
                0 <= q < old(self).accounts@.len() ==> old(self).accounts@[q].id@ != id@,
    {
        let ts = utc_now_rfc3339();
        let copy = ts.clone();
        if self.stamp_login(id, ts) {
            Option::Some(copy)
        } else {
            Option::None
        }
    }
}

} // verus!
