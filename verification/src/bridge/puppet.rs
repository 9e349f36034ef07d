//! Puppets: the virtual users a bridge drives. Their profiles, the rooms
//! they joined, which appservice owns which puppets (within a limit per
//! appservice), and counters per appservice.
use vstd::prelude::*;
use vstd::string::*;

use crate::bridge::BridgeCompatibilityConfig;
use crate::counters::{inc64, bump64, copy_opt_string, copy_strings};
use crate::error::{ErrorKind, ServiceError, is_error, make_error};
use crate::strmap::StrMap;
use crate::text::{str_eq, to_owned};

verus! {

/// What a puppet may do.
#[derive(Debug, Clone, Copy, PartialEq, Eq, Structural)]
pub struct PuppetCapabilities {
    pub can_send_messages: bool,
    pub can_manage_membership: bool,
    pub can_update_profile: bool,
    pub can_send_typing: bool,
    pub can_send_receipts: bool,
    pub can_update_presence: bool,
}

/// The default capabilities: everything but presence.
pub open spec fn default_capabilities() -> PuppetCapabilities {
    PuppetCapabilities {
        can_send_messages: true,
        can_manage_membership: true,
        can_update_profile: true,
        can_send_typing: true,
        can_send_receipts: true,
        can_update_presence: false,
    }
}

impl Default for PuppetCapabilities {
    fn default() -> (c: Self)
        ensures
            c == default_capabilities(),
    {
        PuppetCapabilities {
            can_send_messages: true,
            can_manage_membership: true,
            can_update_profile: true,
            can_send_typing: true,
            can_send_receipts: true,
            can_update_presence: false,
        }
    }
}

/// A room membership change.
#[derive(Debug, Clone, Copy, PartialEq, Eq, Structural)]
pub enum Membership {
    Join,
    Leave,
    Ban,
    Invite,
    Knock,
}

/// A puppet's profile; times are in milliseconds and the bridge metadata is
/// JSON text.
#[derive(Debug)]
pub struct PuppetProfile {
    pub user_id: String,
    pub display_name: Option<String>,
    pub avatar_url: Option<String>,
    pub appservice_id: String,
    pub bridge_metadata: String,
    pub created_at_ms: u64,
    pub last_active_ms: Option<u64>,
    pub joined_rooms: Vec<String>,
    pub is_active: bool,
    pub capabilities: PuppetCapabilities,
}

/// A puppet's profile as values; the joined rooms are a set.
pub struct PuppetView {
    pub user_id: Seq<char>,
    pub display_name: Option<Seq<char>>,
    pub avatar_url: Option<Seq<char>>,
    pub appservice_id: Seq<char>,
    pub bridge_metadata: Seq<char>,
    pub created_at_ms: u64,
    pub last_active_ms: Option<u64>,
    pub joined_rooms: Set<Seq<char>>,
    pub is_active: bool,
    pub capabilities: PuppetCapabilities,
}

/// The characters of each string.
pub open spec fn views(v: Seq<String>) -> Seq<Seq<char>> {
    v.map_values(|s: String| s@)
}

/// The characters of an optional string.
pub open spec fn opt_view(o: Option<String>) -> Option<Seq<char>> {
    match o {
        Some(s) => Some(s@),
        None => None,
    }
}

impl View for PuppetProfile {
    type V = PuppetView;

    open spec fn view(&self) -> PuppetView {
        PuppetView {
            user_id: self.user_id@,
            display_name: opt_view(self.display_name),
            avatar_url: opt_view(self.avatar_url),
            appservice_id: self.appservice_id@,
            bridge_metadata: self.bridge_metadata@,
            created_at_ms: self.created_at_ms,
            last_active_ms: self.last_active_ms,
            joined_rooms: views(self.joined_rooms@).to_set(),
            is_active: self.is_active,
            capabilities: self.capabilities,
        }
    }
}

/// Counters of one appservice's puppets; the last activity is in
/// milliseconds (the average operation time is the caller's to derive).
#[derive(Debug, Clone, Copy, PartialEq, Eq, Structural)]
pub struct PuppetStats {
    pub total_puppets: u64,
    pub active_puppets: u64,
    pub puppet_operations: u64,
    pub profile_updates: u64,
    pub membership_operations: u64,
    pub last_activity_ms: u64,
}

/// What a user query found.
#[derive(Debug, Clone, Copy, PartialEq, Eq, Structural)]
pub enum UserQueryOutcome {
    /// The puppet exists; its activity and the counters were updated.
    Existing,
    /// No puppet, and the appservice is at its limit; the counters were
    /// updated.
    LimitReached,
    /// No puppet: the caller creates the user and then the puppet, and then
    /// records the operation.
    CreationNeeded,
}

/// The counters of `app` in `m`, zero (last active `now`) when it has none.
pub open spec fn current_puppet_stats(m: Map<Seq<char>, PuppetStats>, app: Seq<char>, now: u64) -> PuppetStats {
    if m.contains_key(app) {
        m[app]
    } else {
        PuppetStats {
            total_puppets: 0,
            active_puppets: 0,
            puppet_operations: 0,
            profile_updates: 0,
            membership_operations: 0,
            last_activity_ms: now,
        }
    }
}

/// The counters after one more operation at `now`.
pub open spec fn stats_after(s: PuppetStats, creation: bool, profile: bool, membership: bool, now: u64) -> PuppetStats {
    PuppetStats {
        total_puppets: if creation { inc64(s.total_puppets) } else { s.total_puppets },
        active_puppets: if creation { inc64(s.active_puppets) } else { s.active_puppets },
        puppet_operations: inc64(s.puppet_operations),
        profile_updates: if profile { inc64(s.profile_updates) } else { s.profile_updates },
        membership_operations: if membership { inc64(s.membership_operations) } else { s.membership_operations },
        last_activity_ms: now,
    }
}

/// The profile of a puppet created at `now`.
pub open spec fn new_puppet(
    app: Seq<char>,
    user: Seq<char>,
    display_name: Option<Seq<char>>,
    avatar_url: Option<Seq<char>>,
    metadata: Option<Seq<char>>,
    now: u64,
) -> PuppetView {
    PuppetView {
        user_id: user,
        display_name,
        avatar_url,
        appservice_id: app,
        bridge_metadata: match metadata {
            Some(m) => m,
            None => "{}"@,
        },
        created_at_ms: now,
        last_active_ms: Some(now),
        joined_rooms: Set::empty(),
        is_active: true,
        capabilities: default_capabilities(),
    }
}

/// A puppet is inactive at `now` when it was last active more than
/// `threshold_ms` before.
pub open spec fn is_stale(p: PuppetView, threshold_ms: u64, now: u64) -> bool {
    p.last_active_ms matches Some(t) && t + threshold_ms < now
}

/// A copy of a profile.
pub fn copy_profile(p: &PuppetProfile) -> (r: PuppetProfile)
    ensures
        r@ == p@,
{
    let rooms = copy_strings(&p.joined_rooms);
    assert(views(rooms@) =~= views(p.joined_rooms@));
    PuppetProfile {
        user_id: to_owned(p.user_id.as_str()),
        display_name: copy_opt_string(&p.display_name),
        avatar_url: copy_opt_string(&p.avatar_url),
        appservice_id: to_owned(p.appservice_id.as_str()),
        bridge_metadata: to_owned(p.bridge_metadata.as_str()),
        created_at_ms: p.created_at_ms,
        last_active_ms: p.last_active_ms,
        joined_rooms: rooms,
        is_active: p.is_active,
        capabilities: p.capabilities,
    }
}

/// Whether `rooms` holds `room`.
fn rooms_contain(rooms: &Vec<String>, room: &str) -> (r: bool)
    ensures
        r == views(rooms@).to_set().contains(room@),
{
    let mut i: usize = 0;
    while i < rooms.len()
        invariant
            i <= rooms@.len(),
            forall|j: int| 0 <= j < i ==> rooms@[j]@ != room@,
        decreases rooms@.len() - i,
    {
        if str_eq(rooms[i].as_str(), room) {
            assert(views(rooms@)[i as int] == room@);
            return true;
        }
        i = i + 1;
    }
    assert(!views(rooms@).contains(room@)) by {
        if views(rooms@).contains(room@) {
            let j = choose|j: int| 0 <= j < views(rooms@).len() && views(rooms@)[j] == room@;
            assert(rooms@[j]@ == room@);
        }
    }
    false
}

/// `rooms` without `room`.
fn rooms_without(rooms: &Vec<String>, room: &str) -> (r: Vec<String>)
    ensures
        views(r@).to_set() == views(rooms@).to_set().remove(room@),
{
    let mut out: Vec<String> = Vec::new();
    let mut i: usize = 0;
    while i < rooms.len()
        invariant
            i <= rooms@.len(),
            forall|x: Seq<char>| #[trigger] views(out@).contains(x) == (views(rooms@.subrange(0, i as int)).contains(x) && x != room@),
        decreases rooms@.len() - i,
    {
        let ghost before = out@;
        let ghost pre = rooms@.subrange(0, i as int);
        let ghost pre1 = rooms@.subrange(0, i + 1);
        proof {
            assert(views(pre1) =~= views(pre).push(rooms@[i as int]@));
        }
        if !str_eq(rooms[i].as_str(), room) {
            out.push(to_owned(rooms[i].as_str()));
            proof {
                assert(views(out@) =~= views(before).push(rooms@[i as int]@));
            }
        }
        proof {
            assert forall|x: Seq<char>| #[trigger] views(out@).contains(x) == (views(pre1).contains(x) && x != room@) by {
                assert(views(before).contains(x) == (views(pre).contains(x) && x != room@));
                if views(pre1).contains(x) {
                    let j = choose|j: int| 0 <= j < views(pre1).len() && views(pre1)[j] == x;
                    if j < i {
                        assert(views(pre)[j] == x);
                    } else if x != room@ {
                        assert(views(out@)[before.len() as int] == x);
                    }
                }
                if views(pre).contains(x) {
                    let j = choose|j: int| 0 <= j < views(pre).len() && views(pre)[j] == x;
                    assert(views(pre1)[j] == x);
                }
                if views(out@).contains(x) && !views(before).contains(x) {
                    assert(x == rooms@[i as int]@);
                    assert(views(pre1)[i as int] == x);
                }
                if views(before).contains(x) {
                    let j = choose|j: int| 0 <= j < views(before).len() && views(before)[j] == x;
                    assert(views(out@)[j] == x);
                }
            }
        }
        i = i + 1;
    }
    proof {
        assert(rooms@.subrange(0, i as int) =~= rooms@);
        assert(views(out@).to_set() =~= views(rooms@).to_set().remove(room@));
    }
    out
}

/// `rooms` with `room` added (when it is not there yet).
fn rooms_with(rooms: &mut Vec<String>, room: &str)
    ensures
        views(final(rooms)@).to_set() == views(old(rooms)@).to_set().insert(room@),
{
    if !rooms_contain(rooms, room) {
        let ghost before = rooms@;
        rooms.push(to_owned(room));
        proof {
            assert(views(rooms@) =~= views(before).push(room@));
            assert forall|x: Seq<char>| #[trigger] views(rooms@).contains(x) == (views(before).contains(x) || x == room@) by {
                if views(before).contains(x) {
                    let j = choose|j: int| 0 <= j < views(before).len() && views(before)[j] == x;
                    assert(views(rooms@)[j] == x);
                }
                if x == room@ {
                    assert(views(rooms@)[before.len() as int] == x);
                }
            }
            assert(views(rooms@).to_set() =~= views(before).to_set().insert(room@));
        }
    } else {
        assert(views(rooms@).to_set() =~= views(rooms@).to_set().insert(room@));
    }
}

/// The puppet manager.
pub struct PuppetManager {
    config: BridgeCompatibilityConfig,
    puppets: StrMap<PuppetProfile>,
    stats: StrMap<PuppetStats>,
    appservice_puppets: StrMap<StrMap<bool>>,
}

impl PuppetManager {
    /// The puppets by user id.
    pub closed spec fn puppet_map(&self) -> Map<Seq<char>, PuppetView> {
        self.puppets@.map_values(|p: PuppetProfile| p@)
    }

    /// The puppets of each appservice, by appservice id.
    pub closed spec fn puppet_sets(&self) -> Map<Seq<char>, Set<Seq<char>>> {
        self.appservice_puppets@.map_values(|m: StrMap<bool>| m@.dom())
    }

    /// The counters by appservice.
    pub closed spec fn stats_map(&self) -> Map<Seq<char>, PuppetStats> {
        self.stats@
    }

    /// The most puppets one appservice may have.
    pub closed spec fn max_puppets(&self) -> usize {
        self.config.max_virtual_users_per_bridge
    }

    /// Well-formedness: the maps keep distinct keys, and each puppet is
    /// filed under its own user id.
    pub closed spec fn wf(&self) -> bool {
        &&& self.puppets.wf()
        &&& self.stats.wf()
        &&& self.appservice_puppets.wf()
        &&& forall|a: Seq<char>| #[trigger] self.appservice_puppets@.contains_key(a) ==> self.appservice_puppets@[a].wf()
        &&& forall|u: Seq<char>| #[trigger] self.puppets@.contains_key(u) ==> self.puppets@[u].user_id@ == u
    }

    /// The puppets of appservice `app` (none when it has no entry).
    pub open spec fn set_of(&self, app: Seq<char>) -> Set<Seq<char>> {
        if self.puppet_sets().contains_key(app) {
            self.puppet_sets()[app]
        } else {
            Set::empty()
        }
    }

    /// Each appservice's set of puppets is finite.
    pub proof fn lemma_sets_finite(&self, app: Seq<char>)
        requires
            self.wf(),
        ensures
            self.set_of(app).finite(),
    {
        if self.appservice_puppets@.contains_key(app) {
            self.appservice_puppets@[app].lemma_len();
        }
    }

    /// A manager with no puppets and no counters.
    pub fn new(config: &BridgeCompatibilityConfig) -> (m: Self)
        ensures
            m.wf(),
            m.puppet_map() == Map::<Seq<char>, PuppetView>::empty(),
            m.puppet_sets() == Map::<Seq<char>, Set<Seq<char>>>::empty(),
            m.stats_map() == Map::<Seq<char>, PuppetStats>::empty(),
            m.max_puppets() == config.max_virtual_users_per_bridge,
    {
        let m = PuppetManager {
            config: *config,
            puppets: StrMap::new(),
            stats: StrMap::new(),
            appservice_puppets: StrMap::new(),
        };
        assert(m.puppet_map() =~= Map::<Seq<char>, PuppetView>::empty());
        assert(m.puppet_sets() =~= Map::<Seq<char>, Set<Seq<char>>>::empty());
        m
    }

    /// How many puppets appservice `app` has.
    pub fn get_puppet_count(&self, app: &str) -> (n: usize)
        requires
            self.wf(),
        ensures
            n == self.set_of(app@).len(),
    {
        match self.appservice_puppets.get(app) {
            Some(m) => {
                assert(self.puppet_sets()[app@] == m@.dom());
                m.len()
            },
            None => {
                assert(!self.puppet_sets().contains_key(app@));
                0
            },
        }
    }

    /// Whether appservice `app` may get another puppet: it has fewer than
    /// the limit.
    pub fn should_create_puppet(&self, app: &str) -> (r: bool)
        requires
            self.wf(),
        ensures
            r == (self.set_of(app@).len() < self.max_puppets()),
    {
        self.get_puppet_count(app) < self.config.max_virtual_users_per_bridge
    }

    /// Refuses a new puppet for `app` when it is at its limit.
    pub fn check_puppet_limits(&self, app: &str) -> (r: Result<(), ServiceError>)
        requires
            self.wf(),
        ensures
            self.set_of(app@).len() < self.max_puppets() ==> r is Ok,
            self.set_of(app@).len() >= self.max_puppets() ==> (r matches Err(e) && is_error(
                e,
                ErrorKind::Unknown,
                "Puppet limit exceeded for appservice"@,
            )),
    {
        if self.get_puppet_count(app) >= self.config.max_virtual_users_per_bridge {
            return Err(make_error(ErrorKind::Unknown, "Puppet limit exceeded for appservice"));
        }
        Ok(())
    }

    /// Counts one operation of appservice `app` at `now`: a creation, a
    /// profile update, a membership change, or another operation.
    pub fn update_puppet_stats(&mut self, app: &str, creation: bool, profile: bool, membership: bool, now: u64)
        requires
            old(self).wf(),
        ensures
            final(self).wf(),
            final(self).puppet_map() == old(self).puppet_map(),
            final(self).puppet_sets() == old(self).puppet_sets(),
            final(self).max_puppets() == old(self).max_puppets(),
            final(self).stats_map() == old(self).stats_map().insert(
                app@,
                stats_after(current_puppet_stats(old(self).stats_map(), app@, now), creation, profile, membership, now),
            ),
    {
        let s = match self.stats.get(app) {
            Some(s) => *s,
            None => PuppetStats {
                total_puppets: 0,
                active_puppets: 0,
                puppet_operations: 0,
                profile_updates: 0,
                membership_operations: 0,
                last_activity_ms: now,
            },
        };
        let t = PuppetStats {
            total_puppets: if creation { bump64(s.total_puppets) } else { s.total_puppets },
            active_puppets: if creation { bump64(s.active_puppets) } else { s.active_puppets },
            puppet_operations: bump64(s.puppet_operations),
            profile_updates: if profile { bump64(s.profile_updates) } else { s.profile_updates },
            membership_operations: if membership { bump64(s.membership_operations) } else { s.membership_operations },
            last_activity_ms: now,
        };
        self.stats.insert(app, t);
    }

    /// Records `user` as a puppet of `app`.
    fn file_under(&mut self, app: &str, user: &str)
        requires
            old(self).wf(),
        ensures
            final(self).wf(),
            final(self).puppet_map() == old(self).puppet_map(),
            final(self).stats_map() == old(self).stats_map(),
            final(self).max_puppets() == old(self).max_puppets(),
            final(self).puppet_sets() == old(self).puppet_sets().insert(app@, old(self).set_of(app@).insert(user@)),
    {
        let ghost s0 = old(self).appservice_puppets@;
        let mut m = match self.appservice_puppets.remove(app) {
            Some(m) => m,
            None => StrMap::new(),
        };
        m.insert(user, true);
        self.appservice_puppets.insert(app, m);
        proof {
            assert(self.puppet_sets() =~= old(self).puppet_sets().insert(app@, old(self).set_of(app@).insert(user@)));
        }
    }

    /// Creates at `now` the puppet `user` of appservice `app`, unless `app`
    /// is at its limit; a puppet already filed under `user` is replaced.
    /// Returns the new profile. (The caller has created the Matrix user and
    /// set its profile.)
    pub fn create_puppet(
        &mut self,
        app: &str,
        user: &str,
        display_name: Option<String>,
        avatar_url: Option<String>,
        bridge_metadata: Option<String>,
        now: u64,
    ) -> (r: Result<PuppetProfile, ServiceError>)
        requires
            old(self).wf(),
        ensures
            final(self).wf(),
            final(self).max_puppets() == old(self).max_puppets(),
            old(self).set_of(app@).len() >= old(self).max_puppets() ==> {
                &&& (r matches Err(e) && is_error(e, ErrorKind::Unknown, "Puppet limit exceeded for appservice"@))
                &&& final(self).puppet_map() == old(self).puppet_map()
                &&& final(self).puppet_sets() == old(self).puppet_sets()
                &&& final(self).stats_map() == old(self).stats_map()
            },
            old(self).set_of(app@).len() < old(self).max_puppets() ==> {
                let p = new_puppet(
                    app@,
                    user@,
                    opt_view(display_name),
                    opt_view(avatar_url),
                    opt_view(bridge_metadata),
                    now,
                );
                &&& (r matches Ok(q) && q@ == p)
                &&& final(self).puppet_map() == old(self).puppet_map().insert(user@, p)
                &&& final(self).puppet_sets() == old(self).puppet_sets().insert(
                    app@,
                    old(self).set_of(app@).insert(user@),
                )
                &&& final(self).stats_map() == old(self).stats_map().insert(
                    app@,
                    stats_after(current_puppet_stats(old(self).stats_map(), app@, now), true, false, false, now),
                )
            },
    {
        match self.check_puppet_limits(app) {
            Err(e) => {
                return Err(e);
            },
            Ok(()) => {},
        }
        proof {
            reveal_strlit("{}");
        }
        let metadata = match bridge_metadata {
            Some(m) => m,
            None => String::from_str("{}"),
        };
        let profile = PuppetProfile {
            user_id: to_owned(user),
            display_name,
            avatar_url,
            appservice_id: to_owned(app),
            bridge_metadata: metadata,
            created_at_ms: now,
            last_active_ms: Some(now),
            joined_rooms: Vec::new(),
            is_active: true,
            capabilities: PuppetCapabilities::default(),
        };
        proof {
            assert(views(profile.joined_rooms@).to_set() =~= Set::<Seq<char>>::empty());
        }
        let ret = copy_profile(&profile);
        let ghost pv = profile@;
        self.puppets.insert(user, profile);
        proof {
            assert(self.puppet_map() =~= old(self).puppet_map().insert(user@, pv));
        }
        self.file_under(app, user);
        self.update_puppet_stats(app, true, false, false, now);
        Ok(ret)
    }

    /// Marks puppet `user` active at `now`, if it exists.
    pub fn update_puppet_activity(&mut self, user: &str, now: u64)
        requires
            old(self).wf(),
        ensures
            final(self).wf(),
            final(self).puppet_sets() == old(self).puppet_sets(),
            final(self).stats_map() == old(self).stats_map(),
            final(self).max_puppets() == old(self).max_puppets(),
            final(self).puppet_map() == if old(self).puppet_map().contains_key(user@) {
                old(self).puppet_map().insert(
                    user@,
                    PuppetView { last_active_ms: Some(now), ..old(self).puppet_map()[user@] },
                )
            } else {
                old(self).puppet_map()
            },
    {
        match self.puppets.remove(user) {
            Some(mut p) => {
                p.last_active_ms = Some(now);
                let ghost pv = p@;
                self.puppets.insert(user, p);
                proof {
                    assert(self.puppet_map() =~= old(self).puppet_map().insert(user@, pv));
                }
            },
            None => {
                assert(self.puppet_map() =~= old(self).puppet_map());
            },
        }
    }

    /// Answers a query for user `user` of appservice `app` at `now`: an
    /// existing puppet is marked active; otherwise, unless `app` is at its
    /// limit, the puppet is to be created. The operation is counted, except
    /// when a creation is needed (the caller counts it once it is done).
    pub fn handle_user_query(&mut self, app: &str, user: &str, now: u64) -> (r: UserQueryOutcome)
        requires
            old(self).wf(),
        ensures
            final(self).wf(),
            final(self).puppet_sets() == old(self).puppet_sets(),
            final(self).max_puppets() == old(self).max_puppets(),
            old(self).puppet_map().contains_key(user@) ==> {
                &&& r == UserQueryOutcome::Existing
                &&& final(self).puppet_map() == old(self).puppet_map().insert(
                    user@,
                    PuppetView { last_active_ms: Some(now), ..old(self).puppet_map()[user@] },
                )
                &&& final(self).stats_map() == old(self).stats_map().insert(
                    app@,
                    stats_after(current_puppet_stats(old(self).stats_map(), app@, now), false, false, false, now),
                )
            },
            !old(self).puppet_map().contains_key(user@) && old(self).set_of(app@).len() >= old(self).max_puppets() ==> {
                &&& r == UserQueryOutcome::LimitReached
                &&& final(self).puppet_map() == old(self).puppet_map()
                &&& final(self).stats_map() == old(self).stats_map().insert(
                    app@,
                    stats_after(current_puppet_stats(old(self).stats_map(), app@, now), false, false, false, now),
                )
            },
            !old(self).puppet_map().contains_key(user@) && old(self).set_of(app@).len() < old(self).max_puppets() ==> {
                &&& r == UserQueryOutcome::CreationNeeded
                &&& final(self).puppet_map() == old(self).puppet_map()
                &&& final(self).stats_map() == old(self).stats_map()
            },
    {
        if self.puppets.contains_key(user) {
            self.update_puppet_activity(user, now);
            self.update_puppet_stats(app, false, false, false, now);
            return UserQueryOutcome::Existing;
        }
        if self.should_create_puppet(app) {
            return UserQueryOutcome::CreationNeeded;
        }
        self.update_puppet_stats(app, false, false, false, now);
        UserQueryOutcome::LimitReached
    }

    /// Updates at `now` the profile of puppet `user` with each of the values
    /// given. (The caller has set the Matrix user's profile.)
    pub fn update_puppet_profile(
        &mut self,
        user: &str,
        display_name: Option<String>,
        avatar_url: Option<String>,
        bridge_metadata: Option<String>,
        now: u64,
    ) -> (r: Result<(), ServiceError>)
        requires
            old(self).wf(),
        ensures
            final(self).wf(),
            final(self).puppet_sets() == old(self).puppet_sets(),
            final(self).max_puppets() == old(self).max_puppets(),
            !old(self).puppet_map().contains_key(user@) ==> {
                &&& (r matches Err(e) && is_error(e, ErrorKind::NotFound, "Puppet not found"@))
                &&& final(self).puppet_map() == old(self).puppet_map()
                &&& final(self).stats_map() == old(self).stats_map()
            },
            old(self).puppet_map().contains_key(user@) ==> {
                let p = old(self).puppet_map()[user@];
                &&& r is Ok
                &&& final(self).puppet_map() == old(self).puppet_map().insert(
                    user@,
                    PuppetView {
                        display_name: if display_name is Some { opt_view(display_name) } else { p.display_name },
                        avatar_url: if avatar_url is Some { opt_view(avatar_url) } else { p.avatar_url },
                        bridge_metadata: match bridge_metadata {
                            Some(m) => m@,
                            None => p.bridge_metadata,
                        },
                        last_active_ms: Some(now),
                        ..p
                    },
                )
                &&& final(self).stats_map() == old(self).stats_map().insert(
                    p.appservice_id,
                    stats_after(current_puppet_stats(old(self).stats_map(), p.appservice_id, now), false, true, false, now),
                )
            },
    {
        let mut p = match self.puppets.remove(user) {
            Some(p) => p,
            None => {
                assert(self.puppet_map() =~= old(self).puppet_map());
                return Err(make_error(ErrorKind::NotFound, "Puppet not found"));
            },
        };
        if display_name.is_some() {
            p.display_name = display_name;
        }
        if avatar_url.is_some() {
            p.avatar_url = avatar_url;
        }
        match bridge_metadata {
            Some(m) => {
                p.bridge_metadata = m;
            },
            None => {},
        }
        p.last_active_ms = Some(now);
        let app = to_owned(p.appservice_id.as_str());
        let ghost pv = p@;
        self.puppets.insert(user, p);
        proof {
            assert(self.puppet_map() =~= old(self).puppet_map().insert(user@, pv));
        }
        self.update_puppet_stats(app.as_str(), false, true, false, now);
        Ok(())
    }

    /// Applies at `now` a membership change of puppet `user` in `room`: a
    /// join adds the room, a leave or a ban removes it, others change no
    /// room. A puppet that may not manage its membership is refused.
    pub fn update_puppet_membership(&mut self, user: &str, room: &str, membership: Membership, now: u64) -> (r: Result<(), ServiceError>)
        requires
            old(self).wf(),
        ensures
            final(self).wf(),
            final(self).puppet_sets() == old(self).puppet_sets(),
            final(self).max_puppets() == old(self).max_puppets(),
            !old(self).puppet_map().contains_key(user@) ==> {
                &&& (r matches Err(e) && is_error(e, ErrorKind::NotFound, "Puppet not found"@))
                &&& final(self).puppet_map() == old(self).puppet_map()
                &&& final(self).stats_map() == old(self).stats_map()
            },
            old(self).puppet_map().contains_key(user@) && !old(self).puppet_map()[user@].capabilities.can_manage_membership
                ==> {
                &&& (r matches Err(e) && is_error(e, ErrorKind::Unknown, "Puppet cannot manage membership"@))
                &&& final(self).puppet_map() == old(self).puppet_map()
                &&& final(self).stats_map() == old(self).stats_map()
            },
            old(self).puppet_map().contains_key(user@) && old(self).puppet_map()[user@].capabilities.can_manage_membership
                ==> {
                let p = old(self).puppet_map()[user@];
                &&& r is Ok
                &&& final(self).puppet_map() == old(self).puppet_map().insert(
                    user@,
                    PuppetView {
                        joined_rooms: match membership {
                            Membership::Join => p.joined_rooms.insert(room@),
                            Membership::Leave | Membership::Ban => p.joined_rooms.remove(room@),
                            _ => p.joined_rooms,
                        },
                        last_active_ms: Some(now),
                        ..p
                    },
                )
                &&& final(self).stats_map() == old(self).stats_map().insert(
                    p.appservice_id,
                    stats_after(current_puppet_stats(old(self).stats_map(), p.appservice_id, now), false, false, true, now),
                )
            },
    {
        let mut p = match self.puppets.remove(user) {
            Some(p) => p,
            None => {
                assert(self.puppet_map() =~= old(self).puppet_map());
                return Err(make_error(ErrorKind::NotFound, "Puppet not found"));
            },
        };
        if !p.capabilities.can_manage_membership {
            let ghost pv = p@;
            self.puppets.insert(user, p);
            proof {
                assert(self.puppet_map() =~= old(self).puppet_map());
            }
            return Err(make_error(ErrorKind::Unknown, "Puppet cannot manage membership"));
        }
        match membership {
            Membership::Join => {
                rooms_with(&mut p.joined_rooms, room);
            },
            Membership::Leave | Membership::Ban => {
                let rest = rooms_without(&p.joined_rooms, room);
                p.joined_rooms = rest;
            },
            _ => {},
        }
        p.last_active_ms = Some(now);
        let app = to_owned(p.appservice_id.as_str());
        let ghost pv = p@;
        self.puppets.insert(user, p);
        proof {
            assert(self.puppet_map() =~= old(self).puppet_map().insert(user@, pv));
        }
        self.update_puppet_stats(app.as_str(), false, false, true, now);
        Ok(())
    }

    /// Deactivates puppet `user` at `now`; one active puppet less is counted
    /// for its appservice, when it has counters.
    pub fn deactivate_puppet(&mut self, user: &str, now: u64) -> (r: Result<(), ServiceError>)
        requires
            old(self).wf(),
        ensures
            final(self).wf(),
            final(self).puppet_sets() == old(self).puppet_sets(),
            final(self).max_puppets() == old(self).max_puppets(),
            !old(self).puppet_map().contains_key(user@) ==> {
                &&& (r matches Err(e) && is_error(e, ErrorKind::NotFound, "Puppet not found"@))
                &&& final(self).puppet_map() == old(self).puppet_map()
                &&& final(self).stats_map() == old(self).stats_map()
            },
            old(self).puppet_map().contains_key(user@) ==> {
                let p = old(self).puppet_map()[user@];
                let st = old(self).stats_map();
                &&& r is Ok
                &&& final(self).puppet_map() == old(self).puppet_map().insert(
                    user@,
                    PuppetView { is_active: false, last_active_ms: Some(now), ..p },
                )
                &&& final(self).stats_map() == if st.contains_key(p.appservice_id) {
                    st.insert(
                        p.appservice_id,
                        PuppetStats { active_puppets: crate::counters::dec64(st[p.appservice_id].active_puppets), ..st[p.appservice_id] },
                    )
                } else {
                    st
                }
            },
    {
        let mut p = match self.puppets.remove(user) {
            Some(p) => p,
            None => {
                assert(self.puppet_map() =~= old(self).puppet_map());
                return Err(make_error(ErrorKind::NotFound, "Puppet not found"));
            },
        };
        p.is_active = false;
        p.last_active_ms = Some(now);
        let app = to_owned(p.appservice_id.as_str());
        let ghost pv = p@;
        self.puppets.insert(user, p);
        proof {
            assert(self.puppet_map() =~= old(self).puppet_map().insert(user@, pv));
        }
        match self.stats.get(app.as_str()) {
            Some(s) => {
                let t = PuppetStats { active_puppets: crate::counters::drop64(s.active_puppets), ..*s };
                self.stats.insert(app.as_str(), t);
            },
            None => {},
        }
        Ok(())
    }

    /// A copy of the profile of puppet `user`, if it exists.
    pub fn get_puppet(&self, user: &str) -> (r: Option<PuppetProfile>)
        requires
            self.wf(),
        ensures
            match r {
                Some(q) => self.puppet_map().contains_key(user@) && q@ == self.puppet_map()[user@],
                None => !self.puppet_map().contains_key(user@),
            },
    {
        match self.puppets.get(user) {
            Some(p) => Some(copy_profile(p)),
            None => None,
        }
    }

    /// The counters of appservice `app`, if it has any.
    pub fn get_stats(&self, app: &str) -> (r: Option<PuppetStats>)
        requires
            self.wf(),
        ensures
            r == (if self.stats_map().contains_key(app@) {
                Some(self.stats_map()[app@])
            } else {
                None::<PuppetStats>
            }),
    {
        match self.stats.get(app) {
            Some(s) => Some(*s),
            None => None,
        }
    }

    /// The counters of every appservice.
    pub fn get_all_stats(&self) -> (r: Vec<(String, PuppetStats)>)
        requires
            self.wf(),
        ensures
            r@.len() == self.stats_map().len(),
            forall|i: int| 0 <= i < r@.len() ==> #[trigger] self.stats_map().contains_key(r@[i].0@) && self.stats_map()[r@[i].0@]
                == r@[i].1,
    {
        let n = self.stats.len();
        proof {
            self.stats.lemma_len();
        }
        let mut out: Vec<(String, PuppetStats)> = Vec::new();
        let mut i: usize = 0;
        while i < n
            invariant
                n == self.stats.spec_len(),
                self.stats.wf(),
                i <= n,
                out@.len() == i,
                forall|k: int| 0 <= k < i ==> #[trigger] self.stats@.contains_key(out@[k].0@) && self.stats@[out@[k].0@] == out@[k].1,
            decreases n - i,
        {
            proof {
                self.stats.lemma_entry_in_map(i as int);
            }
            out.push((self.stats.key_at_index(i).clone(), *self.stats.value_at_index(i)));
            i = i + 1;
        }
        out
    }

    /// Copies of the profiles of appservice `app`'s puppets (those it lists
    /// that still exist), each once.
    pub fn get_appservice_puppets(&self, app: &str) -> (r: Vec<PuppetProfile>)
        requires
            self.wf(),
        ensures
            forall|i: int|
                0 <= i < r@.len() ==> self.set_of(app@).contains(#[trigger] r@[i]@.user_id) && self.puppet_map().contains_key(
                    r@[i]@.user_id,
                ) && self.puppet_map()[r@[i]@.user_id] == r@[i]@,
            forall|u: Seq<char>|
                #[trigger] self.set_of(app@).contains(u) && self.puppet_map().contains_key(u) ==> exists|i: int|
                    0 <= i < r@.len() && #[trigger] r@[i]@.user_id == u,
            forall|i: int, j: int| 0 <= i < j < r@.len() ==> r@[i]@.user_id != r@[j]@.user_id,
    {
        let mut out: Vec<PuppetProfile> = Vec::new();
        let m = match self.appservice_puppets.get(app) {
            Some(m) => m,
            None => {
                return out;
            },
        };
        assert(self.set_of(app@) == m@.dom());
        let n = m.len();
        let ghost mut pos: Seq<int> = Seq::empty();
        let mut i: usize = 0;
        while i < n
            invariant
                self.wf(),
                m.wf(),
                self.set_of(app@) == m@.dom(),
                n == m.spec_len(),
                i <= n,
                pos.len() == out@.len(),
                forall|j: int| 0 <= j < pos.len() ==> 0 <= #[trigger] pos[j] < i,
                forall|a: int, b: int| 0 <= a < b < pos.len() ==> pos[a] < pos[b],
                forall|j: int|
                    0 <= j < out@.len() ==> #[trigger] out@[j]@.user_id == m.entries_seq()[pos[j]].0@
                        && self.puppet_map().contains_key(out@[j]@.user_id) && self.puppet_map()[out@[j]@.user_id]
                        == out@[j]@,
                forall|t: int|
                    0 <= t < i && #[trigger] self.puppet_map().contains_key(m.entries_seq()[t].0@) ==> exists|j: int|
                        0 <= j < out@.len() && pos[j] == t,
            decreases n - i,
        {
            let k = m.key_at_index(i);
            let ghost pos0 = pos;
            let ghost n0 = out@.len();
            proof {
                m.lemma_entry_in_map(i as int);
            }
            match self.puppets.get(k.as_str()) {
                Some(p) => {
                    let q = copy_profile(p);
                    proof {
                        pos = pos.push(i as int);
                    }
                    out.push(q);
                },
                None => {},
            }
            proof {
                assert forall|t: int|
                    0 <= t < i + 1 && #[trigger] self.puppet_map().contains_key(m.entries_seq()[t].0@) implies exists|j: int|
                        0 <= j < out@.len() && pos[j] == t by {
                    if t == i {
                        assert(pos[out@.len() - 1] == t);
                    } else {
                        assert(exists|j: int| 0 <= j < n0 && pos0[j] == t);
                        let j = choose|j: int| 0 <= j < n0 && pos0[j] == t;
                        assert(pos[j] == pos0[j]);
                        assert(0 <= j < out@.len() && pos[j] == t);
                    }
                }
            }
            i = i + 1;
        }
        proof {
            assert forall|i: int|
                0 <= i < out@.len() implies self.set_of(app@).contains(#[trigger] out@[i]@.user_id) by {
                m.lemma_entry_in_map(pos[i]);
            }
            assert forall|u: Seq<char>|
                #[trigger] self.set_of(app@).contains(u) && self.puppet_map().contains_key(u) implies exists|i: int|
                    0 <= i < out@.len() && #[trigger] out@[i]@.user_id == u by {
                let t = m.lemma_key_has_entry(u);
                assert(self.puppet_map().contains_key(m.entries_seq()[t].0@));
                let j = choose|j: int| 0 <= j < out@.len() && pos[j] == t;
                assert(out@[j]@.user_id == u);
            }
            assert forall|a: int, b: int| 0 <= a < b < out@.len() implies out@[a]@.user_id != out@[b]@.user_id by {
                assert(pos[a] < pos[b]);
                assert(out@[a]@.user_id == m.entries_seq()[pos[a]].0@);
                assert(out@[b]@.user_id == m.entries_seq()[pos[b]].0@);
            }
        }
        out
    }

    /// Removes, at `now`, the puppets last active more than `threshold_ms`
    /// before, also from their appservice's list; returns how many went.
    pub fn cleanup_inactive_puppets(&mut self, threshold_ms: u64, now: u64) -> (r: Result<usize, ServiceError>)
        requires
            old(self).wf(),
        ensures
            final(self).wf(),
            final(self).stats_map() == old(self).stats_map(),
            final(self).max_puppets() == old(self).max_puppets(),
            forall|u: Seq<char>| #[trigger] final(self).puppet_map().contains_key(u) == (old(self).puppet_map().contains_key(u)
                && !is_stale(old(self).puppet_map()[u], threshold_ms, now)),
            forall|u: Seq<char>| #[trigger] final(self).puppet_map().contains_key(u) ==> final(self).puppet_map()[u]
                == old(self).puppet_map()[u],
            forall|a: Seq<char>| #[trigger] final(self).puppet_sets().contains_key(a) == old(self).puppet_sets().contains_key(a),
            forall|a: Seq<char>, u: Seq<char>|
                #[trigger] old(self).puppet_sets().contains_key(a) ==> #[trigger] final(self).puppet_sets()[a].contains(u) == (
                old(self).puppet_sets()[a].contains(u) && !(old(self).puppet_map().contains_key(u) && is_stale(
                    old(self).puppet_map()[u],
                    threshold_ms,
                    now,
                ) && old(self).puppet_map()[u].appservice_id == a)),
            match r {
                Ok(n) => n + final(self).puppet_map().len() == old(self).puppet_map().len(),
                Err(_) => false,
            },
    {
        let ghost pm = old(self).puppet_map();
        let ghost sets0 = old(self).puppet_sets();
        proof {
            self.puppets.lemma_len();
            assert(pm.dom() =~= self.puppets@.dom());
        }
        let n = self.puppets.len();
        let ghost pred = |p: PuppetProfile| !is_stale(p@, threshold_ms, now);
        let mut keep: Vec<bool> = Vec::new();
        let mut gone: Vec<(String, String)> = Vec::new();
        let mut i: usize = 0;
        while i < n
            invariant
                self.wf(),
                self == old(self),
                pm == self.puppet_map(),
                n == self.puppets.spec_len(),
                i <= n,
                keep@.len() == i,
                pred == (|p: PuppetProfile| !is_stale(p@, threshold_ms, now)),
                forall|j: int| 0 <= j < i ==> keep@[j] == pred(#[trigger] self.puppets.entries_seq()[j].1),
                forall|j: int|
                    0 <= j < gone@.len() ==> pm.contains_key(#[trigger] gone@[j].0@) && is_stale(pm[gone@[j].0@], threshold_ms, now)
                        && gone@[j].1@ == pm[gone@[j].0@].appservice_id,
                forall|t: int|
                    0 <= t < i && !pred(#[trigger] self.puppets.entries_seq()[t].1) ==> exists|j: int|
                        0 <= j < gone@.len() && gone@[j].0@ == self.puppets.entries_seq()[t].0@,
            decreases n - i,
        {
            let p = self.puppets.value_at_index(i);
            let k = self.puppets.key_at_index(i);
            let ghost g0 = gone@;
            proof {
                self.puppets.lemma_entry_in_map(i as int);
            }
            let stale = match p.last_active_ms {
                Some(t) => t < now && now - t > threshold_ms,
                None => false,
            };
            keep.push(!stale);
            if stale {
                gone.push((to_owned(k.as_str()), to_owned(p.appservice_id.as_str())));
            }
            proof {
                assert forall|t: int|
                    0 <= t < i + 1 && !pred(#[trigger] self.puppets.entries_seq()[t].1) implies exists|j: int|
                        0 <= j < gone@.len() && gone@[j].0@ == self.puppets.entries_seq()[t].0@ by {
                    if t == i {
                        assert(gone@[gone@.len() - 1].0@ == self.puppets.entries_seq()[t].0@);
                    } else {
                        assert(exists|j: int| 0 <= j < g0.len() && g0[j].0@ == self.puppets.entries_seq()[t].0@);
                        let j = choose|j: int| 0 <= j < g0.len() && g0[j].0@ == self.puppets.entries_seq()[t].0@;
                        assert(gone@[j] == g0[j]);
                    }
                }
            }
            i = i + 1;
        }
        let removed = self.puppets.retain_marked(&keep, Ghost(pred));
        proof {
            self.puppets.lemma_len();
            assert forall|u: Seq<char>| pm.contains_key(u) && is_stale(pm[u], threshold_ms, now) implies exists|j: int|
                0 <= j < gone@.len() && #[trigger] gone@[j].0@ == u by {
                let t = old(self).puppets.lemma_key_has_entry(u);
                old(self).puppets.lemma_entry_in_map(t);
            }
        }
        proof {
            assert forall|u: Seq<char>| #[trigger] self.puppets@.contains_key(u) implies self.puppets@[u].user_id@ == u by {
                assert(old(self).puppets@.contains_key(u));
            }
        }
        let ghost mid = *self;
        let m = gone.len();
        let mut j: usize = 0;
        while j < m
            invariant
                self.puppets == mid.puppets,
                self.stats == mid.stats,
                self.config == mid.config,
                m == gone@.len(),
                j <= m,
                self.appservice_puppets.wf(),
                forall|a: Seq<char>| #[trigger] self.appservice_puppets@.contains_key(a) ==> self.appservice_puppets@[a].wf(),
                forall|a: Seq<char>| #[trigger] self.puppet_sets().contains_key(a) == sets0.contains_key(a),
                forall|a: Seq<char>, u: Seq<char>|
                    #[trigger] sets0.contains_key(a) ==> #[trigger] self.puppet_sets()[a].contains(u) == (sets0[a].contains(u) && !(
                    exists|jj: int| 0 <= jj < j && #[trigger] gone@[jj].0@ == u && gone@[jj].1@ == a)),
            decreases m - j,
        {
            let ghost before = self.puppet_sets();
            let (u, a) = (&gone[j].0, &gone[j].1);
            match self.appservice_puppets.remove(a.as_str()) {
                Some(mut set) => {
                    set.remove(u.as_str());
                    self.appservice_puppets.insert(a.as_str(), set);
                    proof {
                        assert(self.puppet_sets() =~= before.insert(a@, before[a@].remove(u@)));
                    }
                },
                None => {
                    assert(self.puppet_sets() =~= before);
                },
            }
            proof {
                assert forall|b: Seq<char>, v: Seq<char>|
                    #[trigger] sets0.contains_key(b) implies #[trigger] self.puppet_sets()[b].contains(v) == (sets0[b].contains(v) && !(
                    exists|jj: int| 0 <= jj < j + 1 && #[trigger] gone@[jj].0@ == v && gone@[jj].1@ == b)) by {
                    assert(before.contains_key(b));
                    assert(before[b].contains(v) == (sets0[b].contains(v) && !(
                        exists|jj: int| 0 <= jj < j && #[trigger] gone@[jj].0@ == v && gone@[jj].1@ == b)));
                    if exists|jj: int| 0 <= jj < j + 1 && #[trigger] gone@[jj].0@ == v && gone@[jj].1@ == b {
                        let jj = choose|jj: int| 0 <= jj < j + 1 && #[trigger] gone@[jj].0@ == v && gone@[jj].1@ == b;
                        if jj < j {
                            assert(exists|k: int| 0 <= k < j && #[trigger] gone@[k].0@ == v && gone@[k].1@ == b);
                        }
                    }
                    if exists|jj: int| 0 <= jj < j && #[trigger] gone@[jj].0@ == v && gone@[jj].1@ == b {
                        let jj = choose|jj: int| 0 <= jj < j && #[trigger] gone@[jj].0@ == v && gone@[jj].1@ == b;
                        assert(0 <= jj < j + 1 && gone@[jj].0@ == v && gone@[jj].1@ == b);
                    }
                }
            }
            j = j + 1;
        }
        proof {
            assert forall|a: Seq<char>, u: Seq<char>|
                #[trigger] sets0.contains_key(a) implies #[trigger] self.puppet_sets()[a].contains(u) == (sets0[a].contains(u) && !(
                pm.contains_key(u) && is_stale(pm[u], threshold_ms, now) && pm[u].appservice_id == a)) by {
                if exists|jj: int| 0 <= jj < m && #[trigger] gone@[jj].0@ == u && gone@[jj].1@ == a {
                    let jj = choose|jj: int| 0 <= jj < m && #[trigger] gone@[jj].0@ == u && gone@[jj].1@ == a;
                    assert(pm.contains_key(gone@[jj].0@));
                }
                if pm.contains_key(u) && is_stale(pm[u], threshold_ms, now) && pm[u].appservice_id == a {
                    let jj = choose|jj: int| 0 <= jj < gone@.len() && #[trigger] gone@[jj].0@ == u;
                    assert(pm.contains_key(gone@[jj].0@));
                    assert(0 <= jj < m && gone@[jj].0@ == u && gone@[jj].1@ == a);
                }
            }
            
        }
        proof {
            self.puppets.lemma_len();
            assert(self.puppet_map().dom() =~= self.puppets@.dom());
        }
        Ok(removed)
    }
}

} // verus!
