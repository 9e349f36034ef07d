//! Application-service integration for bots: virtual users and bot intents
//! inside an application service's namespace, the transactions the
//! application service sends, and a cache of namespace decisions.
use vstd::prelude::*;
use vstd::string::*;

use crate::error::{ErrorKind, ServiceError, is_error, make_error};
use crate::strmap::StrMap;
use crate::text::{decimal, str_eq, u64_to_decimal};

verus! {

/// A user an application service manages for a bot; times in milliseconds.
#[derive(Debug)]
pub struct VirtualUser {
    pub user_id: String,
    pub display_name: Option<String>,
    pub avatar_url: Option<String>,
    pub appservice_id: String,
    pub bot_id: String,
    pub created_at_ms: u64,
    pub last_active_ms: Option<u64>,
    pub joined_rooms: Vec<String>,
    pub is_appservice_managed: bool,
}

/// A bot acting as a user of an application service.
#[derive(Debug)]
pub struct BotIntent {
    pub bot_id: String,
    pub appservice_id: String,
    pub user_id: String,
    pub display_name: Option<String>,
    pub avatar_url: Option<String>,
}

/// Status of an application-service transaction.
#[derive(Debug, PartialEq, Eq)]
pub enum TransactionStatus {
    Pending,
    Processing,
    Completed,
    Failed { reason: String },
    Retrying,
}

/// A transaction an application service sent: its events as JSON texts;
/// times in milliseconds.
#[derive(Debug)]
pub struct AppServiceTransaction {
    pub txn_id: String,
    pub appservice_id: String,
    pub events: Vec<String>,
    pub ephemeral: Vec<String>,
    pub timestamp_ms: u64,
    pub status: TransactionStatus,
    pub retry_count: u32,
    pub last_retry_ms: Option<u64>,
}

/// The key of a namespace decision: the application service, `:` and the
/// user.
pub open spec fn cache_key(appservice_id: Seq<char>, user_id: Seq<char>) -> Seq<char> {
    appservice_id + ":"@ + user_id
}

/// Why a namespace check of cache key `key` is refused, if it is: a cached
/// decision stands; otherwise the application service must be registered
/// and the user in its exclusive namespace (`exclusive`).
pub open spec fn namespace_refusal(
    cache: Map<Seq<char>, bool>,
    key: Seq<char>,
    registered: bool,
    exclusive: bool,
) -> Option<(ErrorKind, Seq<char>)> {
    if cache.contains_key(key) {
        if cache[key] {
            None
        } else {
            Some((ErrorKind::Exclusive, "User ID not in appservice namespace"@))
        }
    } else if !registered {
        Some((ErrorKind::NotFound, "AppService not found"@))
    } else if exclusive {
        None
    } else {
        Some((ErrorKind::Exclusive, "User ID not in appservice namespace"@))
    }
}

/// The namespace cache after a check of `key`: a decision made (the
/// service being registered and nothing cached) is cached.
pub open spec fn namespace_cache_after(
    cache: Map<Seq<char>, bool>,
    key: Seq<char>,
    registered: bool,
    exclusive: bool,
) -> Map<Seq<char>, bool> {
    if cache.contains_key(key) || !registered {
        cache
    } else {
        cache.insert(key, exclusive)
    }
}

/// Number of transactions among `s` whose status satisfies `p`.
pub open spec fn count_txn(s: Seq<(String, AppServiceTransaction)>, p: spec_fn(TransactionStatus) -> bool) -> nat
    decreases s.len(),
{
    if s.len() == 0 {
        0
    } else {
        count_txn(s.drop_last(), p) + if p(s.last().1.status) { 1nat } else { 0nat }
    }
}

/// Number of `false` among the first `n` results.
pub open spec fn failures(r: Seq<bool>, n: int) -> nat
    decreases n,
{
    if n <= 0 || n > r.len() {
        0
    } else {
        failures(r, n - 1) + if r[n - 1] { 0nat } else { 1nat }
    }
}

/// The status a processed transaction ends with: completed when every
/// event was processed, otherwise failed with the number of failed events.
pub open spec fn status_matches(s: TransactionStatus, results: Seq<bool>) -> bool {
    let f = failures(results, results.len() as int);
    if f == 0 {
        s == TransactionStatus::Completed
    } else {
        s matches TransactionStatus::Failed { reason } && reason@ == decimal(f) + " events failed processing"@
    }
}

/// A copy of an optional string.
fn copy_opt(s: &Option<String>) -> (r: Option<String>)
    ensures
        r == *s,
{
    match s {
        Some(x) => Some(x.clone()),
        None => None,
    }
}

/// Two virtual users agree field by field (rooms by their items).
pub open spec fn same_user(a: VirtualUser, b: VirtualUser) -> bool {
    &&& a.user_id == b.user_id && a.display_name == b.display_name && a.avatar_url == b.avatar_url
    &&& a.appservice_id == b.appservice_id && a.bot_id == b.bot_id && a.created_at_ms == b.created_at_ms
    &&& a.last_active_ms == b.last_active_ms && a.joined_rooms@ == b.joined_rooms@
    &&& a.is_appservice_managed == b.is_appservice_managed
}

/// The virtual users of bot `bot` among `entries`, in order.
pub open spec fn users_of_bot(entries: Seq<(String, VirtualUser)>, bot: Seq<char>) -> Seq<VirtualUser>
    decreases entries.len(),
{
    if entries.len() == 0 {
        Seq::empty()
    } else {
        users_of_bot(entries.drop_last(), bot) + if entries.last().1.bot_id@ == bot {
            seq![entries.last().1]
        } else {
            Seq::empty()
        }
    }
}

/// A copy of a virtual user (its rooms by their items).
pub fn copy_virtual_user(u: &VirtualUser) -> (r: VirtualUser)
    ensures
        same_user(r, *u),
{
    VirtualUser {
        user_id: u.user_id.clone(),
        display_name: copy_opt(&u.display_name),
        avatar_url: copy_opt(&u.avatar_url),
        appservice_id: u.appservice_id.clone(),
        bot_id: u.bot_id.clone(),
        created_at_ms: u.created_at_ms,
        last_active_ms: u.last_active_ms,
        joined_rooms: crate::counters::copy_strings(&u.joined_rooms),
        is_appservice_managed: u.is_appservice_managed,
    }
}

/// A copy of a bot intent.
pub fn copy_intent(i: &BotIntent) -> (r: BotIntent)
    ensures
        r == *i,
{
    BotIntent {
        bot_id: i.bot_id.clone(),
        appservice_id: i.appservice_id.clone(),
        user_id: i.user_id.clone(),
        display_name: copy_opt(&i.display_name),
        avatar_url: copy_opt(&i.avatar_url),
    }
}

/// Virtual users, bot intents, transactions and namespace decisions.
pub struct AppServiceIntegrationService {
    virtual_users: StrMap<VirtualUser>,
    bot_intents: StrMap<Vec<BotIntent>>,
    transactions: StrMap<AppServiceTransaction>,
    retry_queue: Vec<String>,
    namespace_cache: StrMap<bool>,
}

impl AppServiceIntegrationService {
    /// Virtual users by user id.
    pub closed spec fn users(&self) -> Map<Seq<char>, VirtualUser> {
        self.virtual_users@
    }

    /// The virtual users in the order they are kept.
    pub closed spec fn user_entries(&self) -> Seq<(String, VirtualUser)> {
        self.virtual_users.entries_seq()
    }

    /// Each bot's intents, oldest first.
    pub closed spec fn intents(&self) -> Map<Seq<char>, Seq<BotIntent>> {
        self.bot_intents@.map_values(|v: Vec<BotIntent>| v@)
    }

    /// Transactions by id.
    pub closed spec fn txns(&self) -> Map<Seq<char>, AppServiceTransaction> {
        self.transactions@
    }

    /// The transactions in the order they are kept.
    pub closed spec fn txn_entries(&self) -> Seq<(String, AppServiceTransaction)> {
        self.transactions.entries_seq()
    }

    /// Cached namespace decisions by `cache_key`.
    pub closed spec fn cache(&self) -> Map<Seq<char>, bool> {
        self.namespace_cache@
    }

    /// Well-formedness: the maps keep distinct keys.
    pub closed spec fn wf(&self) -> bool {
        &&& self.virtual_users.wf()
        &&& self.bot_intents.wf()
        &&& self.transactions.wf()
        &&& self.namespace_cache.wf()
    }

    /// An empty integration.
    pub fn new() -> (s: Self)
        ensures
            s.wf(),
            s.users() == Map::<Seq<char>, VirtualUser>::empty(),
            s.intents() == Map::<Seq<char>, Seq<BotIntent>>::empty(),
            s.txns() == Map::<Seq<char>, AppServiceTransaction>::empty(),
            s.cache() == Map::<Seq<char>, bool>::empty(),
    {
        let s = AppServiceIntegrationService {
            virtual_users: StrMap::new(),
            bot_intents: StrMap::new(),
            transactions: StrMap::new(),
            retry_queue: Vec::new(),
            namespace_cache: StrMap::new(),
        };
        assert(s.intents() =~= Map::<Seq<char>, Seq<BotIntent>>::empty());
        s
    }

    /// Whether `user_id` lies in the exclusive namespace of application
    /// service `appservice_id`. A cached decision is used as it is;
    /// otherwise the service must be registered (`registered`) and the
    /// decision (`exclusive`, what the application-service registry says)
    /// is cached.
    pub fn validate_user_namespace(
        &mut self,
        user_id: &str,
        appservice_id: &str,
        registered: bool,
        exclusive: bool,
    ) -> (r: Result<(), ServiceError>)
        requires
            old(self).wf(),
        ensures
            final(self).wf(),
            final(self).users() == old(self).users(),
            final(self).intents() == old(self).intents(),
            final(self).txns() == old(self).txns(),
            ({
                let key = cache_key(appservice_id@, user_id@);
                if old(self).cache().contains_key(key) {
                    &&& final(self).cache() == old(self).cache()
                    &&& if old(self).cache()[key] {
                        r is Ok
                    } else {
                        r matches Err(e) && is_error(e, ErrorKind::Exclusive, "User ID not in appservice namespace"@)
                    }
                } else if !registered {
                    &&& final(self).cache() == old(self).cache()
                    &&& r matches Err(e) && is_error(e, ErrorKind::NotFound, "AppService not found"@)
                } else {
                    &&& final(self).cache() == old(self).cache().insert(key, exclusive)
                    &&& if exclusive {
                        r is Ok
                    } else {
                        r matches Err(e) && is_error(e, ErrorKind::Exclusive, "User ID not in appservice namespace"@)
                    }
                }
            }),
    {
        let mut key = String::from_str(appservice_id);
        key.append(":");
        key.append(user_id);
        match self.namespace_cache.get(key.as_str()) {
            Some(valid) => {
                if *valid {
                    return Ok(());
                } else {
                    return Err(make_error(ErrorKind::Exclusive, "User ID not in appservice namespace"));
                }
            },
            None => {},
        }
        if !registered {
            return Err(make_error(ErrorKind::NotFound, "AppService not found"));
        }
        self.namespace_cache.insert(key.as_str(), exclusive);
        if exclusive {
            Ok(())
        } else {
            Err(make_error(ErrorKind::Exclusive, "User ID not in appservice namespace"))
        }
    }

    /// Registers virtual user `user_id` for `bot_id` at `now`: the user
    /// must lie in the application service's namespace and must not exist
    /// yet (`user_exists`, what the user store says). The caller then
    /// creates the account and sets its profile.
    pub fn register_virtual_user(
        &mut self,
        user_id: &str,
        display_name: Option<String>,
        avatar_url: Option<String>,
        appservice_id: &str,
        bot_id: &str,
        now: u64,
        registered: bool,
        exclusive: bool,
        user_exists: bool,
    ) -> (r: Result<VirtualUser, ServiceError>)
        requires
            old(self).wf(),
        ensures
            final(self).wf(),
            final(self).intents() == old(self).intents(),
            final(self).txns() == old(self).txns(),
            r is Err ==> final(self).users() == old(self).users(),
            final(self).cache() == namespace_cache_after(
                old(self).cache(),
                cache_key(appservice_id@, user_id@),
                registered,
                exclusive,
            ),
            match namespace_refusal(old(self).cache(), cache_key(appservice_id@, user_id@), registered, exclusive) {
                Some((k, m)) => r matches Err(e) && is_error(e, k, m),
                None => if user_exists {
                    r matches Err(e) && is_error(e, ErrorKind::UserInUse, "User ID already exists"@)
                } else {
                    r is Ok
                },
            },
            r matches Ok(u) ==> {
                &&& u.user_id@ == user_id@ && u.display_name == display_name && u.avatar_url == avatar_url
                &&& u.appservice_id@ == appservice_id@ && u.bot_id@ == bot_id@ && u.created_at_ms == now
                &&& u.last_active_ms == Some(now) && u.joined_rooms@.len() == 0 && u.is_appservice_managed
                &&& final(self).users() == old(self).users().insert(user_id@, final(self).users()[user_id@])
                &&& same_user(final(self).users()[user_id@], u)
            },
    {
        match self.validate_user_namespace(user_id, appservice_id, registered, exclusive) {
            Err(e) => {
                return Err(e);
            },
            Ok(()) => {},
        }
        if user_exists {
            return Err(make_error(ErrorKind::UserInUse, "User ID already exists"));
        }
        let user = VirtualUser {
            user_id: String::from_str(user_id),
            display_name,
            avatar_url,
            appservice_id: String::from_str(appservice_id),
            bot_id: String::from_str(bot_id),
            created_at_ms: now,
            last_active_ms: Some(now),
            joined_rooms: Vec::new(),
            is_appservice_managed: true,
        };
        let result = copy_virtual_user(&user);
        self.virtual_users.insert(user_id, user);
        Ok(result)
    }

    /// Creates an intent for `bot_id` to act as `user_id`, which must lie in
    /// the application service's namespace; the bot's intents keep their
    /// order.
    pub fn create_bot_intent(
        &mut self,
        bot_id: &str,
        appservice_id: &str,
        user_id: &str,
        display_name: Option<String>,
        avatar_url: Option<String>,
        registered: bool,
        exclusive: bool,
    ) -> (r: Result<BotIntent, ServiceError>)
        requires
            old(self).wf(),
        ensures
            final(self).wf(),
            final(self).users() == old(self).users(),
            final(self).txns() == old(self).txns(),
            final(self).cache() == namespace_cache_after(
                old(self).cache(),
                cache_key(appservice_id@, user_id@),
                registered,
                exclusive,
            ),
            match namespace_refusal(old(self).cache(), cache_key(appservice_id@, user_id@), registered, exclusive) {
                Some((k, m)) => r matches Err(e) && is_error(e, k, m),
                None => r is Ok,
            },
            r is Err ==> final(self).intents() == old(self).intents(),
            r matches Ok(i) ==> {
                &&& i.bot_id@ == bot_id@ && i.appservice_id@ == appservice_id@ && i.user_id@ == user_id@
                &&& i.display_name == display_name && i.avatar_url == avatar_url
                &&& final(self).intents() == old(self).intents().insert(
                    bot_id@,
                    (if old(self).intents().contains_key(bot_id@) {
                        old(self).intents()[bot_id@]
                    } else {
                        Seq::empty()
                    }).push(i),
                )
            },
    {
        match self.validate_user_namespace(user_id, appservice_id, registered, exclusive) {
            Err(e) => {
                return Err(e);
            },
            Ok(()) => {},
        }
        let intent = BotIntent {
            bot_id: String::from_str(bot_id),
            appservice_id: String::from_str(appservice_id),
            user_id: String::from_str(user_id),
            display_name,
            avatar_url,
        };
        let result = copy_intent(&intent);
        let ghost old_map = self.bot_intents@;
        let mut list = match self.bot_intents.remove(bot_id) {
            Some(v) => v,
            None => Vec::new(),
        };
        list.push(intent);
        self.bot_intents.insert(bot_id, list);
        proof {
            assert(self.intents() =~= old(self).intents().insert(
                bot_id@,
                (if old(self).intents().contains_key(bot_id@) {
                    old(self).intents()[bot_id@]
                } else {
                    Seq::empty()
                }).push(result),
            ));
        }
        Ok(result)
    }

    /// What processing transaction `txn_id` of `appservice_id` at `now`
    /// answers (`r`) and does, from `self` to `after`: a transaction seen
    /// before is acknowledged and changes nothing; a new one is recorded
    /// with its events, its status completed or failed by `event_ok`.
    pub open spec fn txn_processed(
        self,
        after: Self,
        txn_id: Seq<char>,
        appservice_id: Seq<char>,
        events: Seq<String>,
        ephemeral: Seq<String>,
        now: u64,
        event_ok: Seq<bool>,
        r: Result<(), ServiceError>,
    ) -> bool {
        &&& after.wf()
        &&& r is Ok
        &&& after.users() == self.users()
        &&& after.intents() == self.intents()
        &&& after.cache() == self.cache()
        &&& self.txns().contains_key(txn_id) ==> after.txns() == self.txns()
        &&& !self.txns().contains_key(txn_id) ==> {
            let t = after.txns()[txn_id];
            &&& after.txns() == self.txns().insert(txn_id, t)
            &&& t.txn_id@ == txn_id && t.appservice_id@ == appservice_id && t.events@ == events
            &&& t.ephemeral@ == ephemeral && t.timestamp_ms == now && t.retry_count == 0 && t.last_retry_ms is None
            &&& status_matches(t.status, event_ok)
        }
    }

    /// Processes transaction `txn_id` of an application service at `now`.
    /// A transaction seen before is acknowledged and left alone. Otherwise
    /// it is recorded, and its status becomes completed or failed by the
    /// outcome of each event (`event_ok`, whether the event could be read).
    pub fn process_appservice_transaction(
        &mut self,
        txn_id: &str,
        appservice_id: &str,
        events: Vec<String>,
        ephemeral: Vec<String>,
        now: u64,
        event_ok: &Vec<bool>,
    ) -> (r: Result<(), ServiceError>)
        requires
            old(self).wf(),
            event_ok@.len() == events@.len(),
        ensures
            old(self).txn_processed(*final(self), txn_id@, appservice_id@, events@, ephemeral@, now, event_ok@, r),
    {
        if self.transactions.contains_key(txn_id) {
            return Ok(());
        }
        let n = event_ok.len();
        let mut failed: u64 = 0;
        let mut i: usize = 0;
        while i < n
            invariant
                n == event_ok@.len(),
                i <= n,
                failed == failures(event_ok@, i as int),
                failed <= i,
            decreases n - i,
        {
            if !event_ok[i] {
                failed = failed + 1;
            }
            i = i + 1;
        }
        let status = if failed == 0 {
            TransactionStatus::Completed
        } else {
            let mut reason = u64_to_decimal(failed);
            reason.append(" events failed processing");
            TransactionStatus::Failed { reason }
        };
        let txn = AppServiceTransaction {
            txn_id: String::from_str(txn_id),
            appservice_id: String::from_str(appservice_id),
            events,
            ephemeral,
            timestamp_ms: now,
            status,
            retry_count: 0,
            last_retry_ms: None,
        };
        self.transactions.insert(txn_id, txn);
        Ok(())
    }

    /// The virtual users of `bot_id`, in the order they are kept.
    pub fn get_bot_virtual_users(&self, bot_id: &str) -> (r: Vec<VirtualUser>)
        requires
            self.wf(),
        ensures
            r@.len() == users_of_bot(self.user_entries(), bot_id@).len(),
            forall|i: int| 0 <= i < r@.len() ==> same_user(#[trigger] r@[i], users_of_bot(self.user_entries(), bot_id@)[i]),
    {
        let n = self.virtual_users.len();
        let ghost s = self.user_entries();
        let mut out: Vec<VirtualUser> = Vec::new();
        let mut i: usize = 0;
        while i < n
            invariant
                n == self.virtual_users.spec_len(),
                s == self.user_entries(),
                s == self.virtual_users.entries_seq(),
                i <= n,
                out@.len() == users_of_bot(s.subrange(0, i as int), bot_id@).len(),
                forall|k: int| 0 <= k < out@.len() ==> same_user(#[trigger] out@[k], users_of_bot(s.subrange(0, i as int), bot_id@)[k]),
            decreases n - i,
        {
            proof {
                assert(s.subrange(0, i + 1).drop_last() =~= s.subrange(0, i as int));
            }
            let u = self.virtual_users.value_at_index(i);
            if str_eq(u.bot_id.as_str(), bot_id) {
                out.push(copy_virtual_user(u));
            }
            i = i + 1;
        }
        proof {
            assert(s.subrange(0, n as int) =~= s);
        }
        out
    }

    /// The intents of `bot_id`, oldest first.
    pub fn get_bot_intents(&self, bot_id: &str) -> (r: Vec<BotIntent>)
        requires
            self.wf(),
        ensures
            self.intents().contains_key(bot_id@) ==> r@ == self.intents()[bot_id@],
            !self.intents().contains_key(bot_id@) ==> r@.len() == 0,
    {
        let mut out: Vec<BotIntent> = Vec::new();
        match self.bot_intents.get(bot_id) {
            Some(v) => {
                let mut i: usize = 0;
                while i < v.len()
                    invariant
                        i <= v@.len(),
                        out@ == v@.subrange(0, i as int),
                    decreases v@.len() - i,
                {
                    out.push(copy_intent(&v[i]));
                    proof {
                        assert(v@.subrange(0, i + 1) =~= v@.subrange(0, i as int).push(v@[i as int]));
                    }
                    i = i + 1;
                }
                assert(v@.subrange(0, v@.len() as int) =~= v@);
            },
            None => {},
        }
        out
    }

    /// Every virtual user, in the order they are kept.
    pub fn get_all_virtual_users(&self) -> (r: Vec<VirtualUser>)
        requires
            self.wf(),
        ensures
            r@.len() == self.user_entries().len(),
            forall|i: int| 0 <= i < r@.len() ==> same_user(#[trigger] r@[i], self.user_entries()[i].1),
    {
        let n = self.virtual_users.len();
        let mut out: Vec<VirtualUser> = Vec::new();
        let mut i: usize = 0;
        while i < n
            invariant
                n == self.virtual_users.spec_len(),
                i <= n,
                out@.len() == i,
                forall|k: int| 0 <= k < i ==> same_user(#[trigger] out@[k], self.virtual_users.entries_seq()[k].1),
            decreases n - i,
        {
            out.push(copy_virtual_user(self.virtual_users.value_at_index(i)));
            i = i + 1;
        }
        out
    }

    /// The virtual user `user_id` of an application service, once the user
    /// is found in its namespace.
    pub fn query_user_id(
        &mut self,
        appservice_id: &str,
        user_id: &str,
        registered: bool,
        exclusive: bool,
    ) -> (r: Result<Option<VirtualUser>, ServiceError>)
        requires
            old(self).wf(),
        ensures
            final(self).wf(),
            final(self).users() == old(self).users(),
            match r {
                Ok(Some(u)) => old(self).users().contains_key(user_id@) && u.user_id == old(self).users()[user_id@].user_id
                    && u.bot_id == old(self).users()[user_id@].bot_id,
                Ok(None) => !old(self).users().contains_key(user_id@),
                Err(_) => true,
            },
            r is Ok <==> ({
                let key = cache_key(appservice_id@, user_id@);
                if old(self).cache().contains_key(key) { old(self).cache()[key] } else { registered && exclusive }
            }),
    {
        match self.validate_user_namespace(user_id, appservice_id, registered, exclusive) {
            Err(e) => {
                return Err(e);
            },
            Ok(()) => {},
        }
        match self.virtual_users.get(user_id) {
            Some(u) => Ok(Some(copy_virtual_user(u))),
            None => Ok(None),
        }
    }

    /// The room an alias of an application service resolves to: the alias
    /// must lie in its exclusive namespace (`exclusive`); `resolved` is
    /// what the local alias table says.
    pub fn query_room_alias(&self, exclusive: bool, resolved: Option<String>) -> (r: Result<Option<String>, ServiceError>)
        ensures
            !exclusive ==> (r matches Err(e) && is_error(e, ErrorKind::Exclusive, "Room alias not in appservice namespace"@)),
            exclusive ==> r == Ok::<Option<String>, ServiceError>(resolved),
    {
        if !exclusive {
            return Err(make_error(ErrorKind::Exclusive, "Room alias not in appservice namespace"));
        }
        Ok(resolved)
    }

    /// Transaction counts: total, completed, failed, and pending or
    /// processing.
    pub fn get_transaction_stats(&self) -> (r: (usize, usize, usize, usize))
        requires
            self.wf(),
        ensures
            r.0 == self.txn_entries().len(),
            r.1 == count_txn(self.txn_entries(), |s: TransactionStatus| s is Completed),
            r.2 == count_txn(self.txn_entries(), |s: TransactionStatus| s is Failed),
            r.3 == count_txn(self.txn_entries(), |s: TransactionStatus| s is Pending || s is Processing),
    {
        let ghost s = self.transactions.entries_seq();
        let ghost pc = |s: TransactionStatus| s is Completed;
        let ghost pf = |s: TransactionStatus| s is Failed;
        let ghost pp = |s: TransactionStatus| s is Pending || s is Processing;
        let n = self.transactions.len();
        let mut completed: usize = 0;
        let mut failed: usize = 0;
        let mut pending: usize = 0;
        let mut i: usize = 0;
        while i < n
            invariant
                n == s.len(),
                s == self.transactions.entries_seq(),
                pc == (|s: TransactionStatus| s is Completed),
                pf == (|s: TransactionStatus| s is Failed),
                pp == (|s: TransactionStatus| s is Pending || s is Processing),
                i <= n,
                completed == count_txn(s.subrange(0, i as int), pc),
                failed == count_txn(s.subrange(0, i as int), pf),
                pending == count_txn(s.subrange(0, i as int), pp),
                completed <= i,
                failed <= i,
                pending <= i,
            decreases n - i,
        {
            proof {
                let t = s.subrange(0, i + 1);
                assert(t.drop_last() =~= s.subrange(0, i as int));
            }
            match &self.transactions.value_at_index(i).status {
                TransactionStatus::Completed => {
                    completed = completed + 1;
                },
                TransactionStatus::Failed { .. } => {
                    failed = failed + 1;
                },
                TransactionStatus::Pending => {
                    pending = pending + 1;
                },
                TransactionStatus::Processing => {
                    pending = pending + 1;
                },
                _ => {},
            }
            i = i + 1;
        }
        assert(s.subrange(0, n as int) =~= s);
        (n, completed, failed, pending)
    }

    /// Drops, at `now`, the completed transactions recorded at or before
    /// `older_than_ms` ago; returns how many were dropped.
    pub fn cleanup_old_transactions(&mut self, older_than_ms: u64, now: u64) -> (removed: usize)
        requires
            old(self).wf(),
            older_than_ms <= now,
        ensures
            final(self).wf(),
            final(self).users() == old(self).users(),
            final(self).intents() == old(self).intents(),
            final(self).cache() == old(self).cache(),
            forall|k: Seq<char>| #[trigger] final(self).txns().contains_key(k) == (old(self).txns().contains_key(k) && (
            old(self).txns()[k].timestamp_ms > now - older_than_ms || !(old(self).txns()[k].status is Completed))),
            forall|k: Seq<char>| #[trigger] final(self).txns().contains_key(k) ==> final(self).txns()[k] == old(self).txns()[k],
            removed + final(self).txn_entries().len() == old(self).txn_entries().len(),
    {
        let cutoff = now - older_than_ms;
        let n = self.transactions.len();
        let mut keep: Vec<bool> = Vec::new();
        let ghost pred = |t: AppServiceTransaction| t.timestamp_ms > cutoff || !(t.status is Completed);
        let mut i: usize = 0;
        while i < n
            invariant
                n == self.transactions.spec_len(),
                i <= n,
                keep@.len() == i,
                pred == (|t: AppServiceTransaction| t.timestamp_ms > cutoff || !(t.status is Completed)),
                forall|j: int| 0 <= j < i ==> keep@[j] == pred(#[trigger] self.transactions.entries_seq()[j].1),
            decreases n - i,
        {
            let t = self.transactions.value_at_index(i);
            let completed = match &t.status {
                TransactionStatus::Completed => true,
                _ => false,
            };
            keep.push(t.timestamp_ms > cutoff || !completed);
            i = i + 1;
        }
        self.transactions.retain_marked(&keep, Ghost(pred))
    }
}

/// A transaction is processed once: processing the same transaction id
/// again, whatever it carries, is acknowledged and changes nothing.
pub proof fn lemma_repeated_transaction_idempotent(
    s0: AppServiceIntegrationService,
    s1: AppServiceIntegrationService,
    s2: AppServiceIntegrationService,
    txn_id: Seq<char>,
    first: (Seq<char>, Seq<String>, Seq<String>, u64, Seq<bool>),
    second: (Seq<char>, Seq<String>, Seq<String>, u64, Seq<bool>),
    r1: Result<(), ServiceError>,
    r2: Result<(), ServiceError>,
)
    requires
        s0.txn_processed(s1, txn_id, first.0, first.1, first.2, first.3, first.4, r1),
        s1.txn_processed(s2, txn_id, second.0, second.1, second.2, second.3, second.4, r2),
    ensures
        r1 is Ok && r2 is Ok,
        s2.txns() == s1.txns(),
        s2.users() == s1.users(),
        s2.intents() == s1.intents(),
        s2.cache() == s1.cache(),
        s1.txns().contains_key(txn_id),
{
}

} // verus!
