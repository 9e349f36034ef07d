//! Ephemeral events from bridges (typing, receipts, presence): a per-bridge
//! rate limit of one event every 100 milliseconds, which events are
//! admitted, and per-bridge counters.
use vstd::prelude::*;
use vstd::string::*;
use vstd::utf8::*;

use crate::bridge::BridgeCompatibilityConfig;
use crate::counters::add64;
use crate::error::{ErrorKind, ServiceError, is_error, make_error};
use crate::external::{event_id_valid, pair_views, spec_valid_user_id, valid_event_id, valid_room_id, valid_user_id};
use crate::strmap::StrMap;
use crate::text::str_eq;

verus! {

/// Counters of one bridge's ephemeral events; the last activity is in
/// milliseconds (averages and rates are the caller's to derive).
#[derive(Debug, Clone, Copy, PartialEq, Eq, Structural)]
pub struct EphemeralStats {
    pub typing_events_processed: u64,
    pub read_receipts_processed: u64,
    pub presence_events_processed: u64,
    pub last_activity_ms: u64,
}

/// The kinds of ephemeral events.
#[derive(Debug, Clone, Copy, PartialEq, Eq, Structural)]
pub enum EphemeralKind {
    Typing,
    Receipt,
    Presence,
    Other,
}

/// The kind of an event type: `m.typing`, `m.receipt`, `m.presence` or
/// another.
pub open spec fn kind_of(t: Seq<char>) -> EphemeralKind {
    if t == "m.typing"@ {
        EphemeralKind::Typing
    } else if t == "m.receipt"@ {
        EphemeralKind::Receipt
    } else if t == "m.presence"@ {
        EphemeralKind::Presence
    } else {
        EphemeralKind::Other
    }
}

/// The rate limit lets an event through at `now` after one at `last`: at
/// least 100 milliseconds have passed (a clock that went back counts as no
/// time).
pub open spec fn interval_passed(last: u64, now: u64) -> bool {
    now >= last && now - last >= 100
}

/// How many of a batch's outcomes are events of kind `k` that were
/// processed (`None` stands for an event that failed).
pub open spec fn count_kind(outcomes: Seq<Option<EphemeralKind>>, k: EphemeralKind) -> nat
    decreases outcomes.len(),
{
    if outcomes.len() == 0 {
        0
    } else {
        count_kind(outcomes.drop_last(), k) + if outcomes.last() == Some(k) { 1nat } else { 0nat }
    }
}

/// A batch has no more outcomes than it has elements.
pub proof fn lemma_count_kind_bound(outcomes: Seq<Option<EphemeralKind>>, k: EphemeralKind)
    ensures
        count_kind(outcomes, k) <= outcomes.len(),
    decreases outcomes.len(),
{
    if outcomes.len() > 0 {
        lemma_count_kind_bound(outcomes.drop_last(), k);
    }
}

/// Once an event of a bridge is let through at `last`, each event of that
/// bridge in the next 100 milliseconds is refused, and one at 100
/// milliseconds or later is let through.
pub proof fn lemma_rate_limit_window(last: u64, now: u64)
    requires
        last <= now,
    ensures
        interval_passed(last, now) <==> now - last >= 100,
{
}

/// The ephemeral event processor.
pub struct EphemeralEventProcessor {
    config: BridgeCompatibilityConfig,
    stats: StrMap<EphemeralStats>,
    rate_limits: StrMap<u64>,
    dedup_cache: StrMap<bool>,
}

impl EphemeralEventProcessor {
    /// Counters by bridge.
    pub closed spec fn stats_map(&self) -> Map<Seq<char>, EphemeralStats> {
        self.stats@
    }

    /// Time of each bridge's last admitted event.
    pub closed spec fn last_event(&self) -> Map<Seq<char>, u64> {
        self.rate_limits@
    }

    /// The bridge configuration the processor was made with.
    pub closed spec fn config_view(&self) -> BridgeCompatibilityConfig {
        self.config
    }

    /// Number of entries in the deduplication cache.
    pub closed spec fn dedup_len(&self) -> nat {
        self.dedup_cache.spec_len()
    }

    /// Well-formedness: the maps keep distinct keys.
    pub closed spec fn wf(&self) -> bool {
        self.stats.wf() && self.rate_limits.wf() && self.dedup_cache.wf()
    }

    /// A processor for `config` with no counters or limits.
    pub fn new(config: &BridgeCompatibilityConfig) -> (p: Self)
        ensures
            p.wf(),
            p.config_view() == *config,
            p.stats_map() == Map::<Seq<char>, EphemeralStats>::empty(),
            p.last_event() == Map::<Seq<char>, u64>::empty(),
            p.dedup_len() == 0,
    {
        EphemeralEventProcessor { config: *config, stats: StrMap::new(), rate_limits: StrMap::new(), dedup_cache: StrMap::new() }
    }

    /// Whether bridge `appservice_id` may send an event at `now`; when it may,
    /// `now` becomes its last event time.
    pub fn check_rate_limit(&mut self, appservice_id: &str, now: u64) -> (ok: bool)
        requires
            old(self).wf(),
        ensures
            final(self).wf(),
            final(self).stats_map() == old(self).stats_map(),
            ok == (!old(self).last_event().contains_key(appservice_id@) || interval_passed(
                old(self).last_event()[appservice_id@],
                now,
            )),
            ok ==> final(self).last_event() == old(self).last_event().insert(appservice_id@, now),
            !ok ==> final(self).last_event() == old(self).last_event(),
    {
        let ok = match self.rate_limits.get(appservice_id) {
            Some(last) => now >= *last && now - *last >= 100,
            None => true,
        };
        if ok {
            self.rate_limits.insert(appservice_id, now);
        }
        ok
    }

    /// Admits an ephemeral event of type `event_type` (`None` when the event
    /// has none) from bridge `appservice_id` at `now`: the type is required,
    /// then the rate limit applies. The caller applies the event.
    pub fn admit_event(&mut self, appservice_id: &str, event_type: Option<&str>, now: u64) -> (r: Result<EphemeralKind, ServiceError>)
        requires
            old(self).wf(),
        ensures
            final(self).wf(),
            final(self).stats_map() == old(self).stats_map(),
            event_type is None ==> (r matches Err(e) && is_error(e, ErrorKind::InvalidParam, "Missing event type"@))
                && final(self).last_event() == old(self).last_event(),
            event_type matches Some(t) ==> {
                let ok = !old(self).last_event().contains_key(appservice_id@) || interval_passed(
                    old(self).last_event()[appservice_id@],
                    now,
                );
                &&& ok ==> r == Ok::<EphemeralKind, ServiceError>(kind_of(t@))
                    && final(self).last_event() == old(self).last_event().insert(appservice_id@, now)
                &&& !ok ==> (r matches Err(e) && is_error(e, ErrorKind::Unknown, "Rate limit exceeded for ephemeral events"@))
                    && final(self).last_event() == old(self).last_event()
            },
    {
        let t = match event_type {
            None => {
                return Err(make_error(ErrorKind::InvalidParam, "Missing event type"));
            },
            Some(t) => t,
        };
        if !self.check_rate_limit(appservice_id, now) {
            return Err(make_error(ErrorKind::Unknown, "Rate limit exceeded for ephemeral events"));
        }
        proof {
            reveal_strlit("m.typing");
            reveal_strlit("m.receipt");
            reveal_strlit("m.presence");
        }
        if str_eq(t, "m.typing") {
            Ok(EphemeralKind::Typing)
        } else if str_eq(t, "m.receipt") {
            Ok(EphemeralKind::Receipt)
        } else if str_eq(t, "m.presence") {
            Ok(EphemeralKind::Presence)
        } else {
            Ok(EphemeralKind::Other)
        }
    }

    /// Adds the events of one batch from `appservice_id` to its counters at
    /// `now` (counters stop at `u64::MAX`).
    pub fn update_stats(&mut self, appservice_id: &str, typing: u64, receipts: u64, presence: u64, now: u64)
        requires
            old(self).wf(),
        ensures
            final(self).wf(),
            final(self).last_event() == old(self).last_event(),
            ({
                let s = if old(self).stats_map().contains_key(appservice_id@) {
                    old(self).stats_map()[appservice_id@]
                } else {
                    EphemeralStats {
                        typing_events_processed: 0,
                        read_receipts_processed: 0,
                        presence_events_processed: 0,
                        last_activity_ms: now,
                    }
                };
                final(self).stats_map() == old(self).stats_map().insert(
                    appservice_id@,
                    EphemeralStats {
                        typing_events_processed: add64(s.typing_events_processed, typing),
                        read_receipts_processed: add64(s.read_receipts_processed, receipts),
                        presence_events_processed: add64(s.presence_events_processed, presence),
                        last_activity_ms: now,
                    },
                )
            }),
    {
        let mut s = match self.stats.get(appservice_id) {
            Some(s) => *s,
            None => EphemeralStats {
                typing_events_processed: 0,
                read_receipts_processed: 0,
                presence_events_processed: 0,
                last_activity_ms: now,
            },
        };
        s.typing_events_processed = crate::counters::sum64(s.typing_events_processed, typing);
        s.read_receipts_processed = crate::counters::sum64(s.read_receipts_processed, receipts);
        s.presence_events_processed = crate::counters::sum64(s.presence_events_processed, presence);
        s.last_activity_ms = now;
        self.stats.insert(appservice_id, s);
    }

    /// The counters of one bridge.
    pub fn get_stats(&self, appservice_id: &str) -> (r: Option<EphemeralStats>)
        requires
            self.wf(),
        ensures
            self.stats_map().contains_key(appservice_id@) ==> r == Some(self.stats_map()[appservice_id@]),
            !self.stats_map().contains_key(appservice_id@) ==> r is None,
    {
        match self.stats.get(appservice_id) {
            Some(s) => Some(*s),
            None => None,
        }
    }

    /// The counters of every bridge.
    pub fn get_all_stats(&self) -> (r: Vec<(String, EphemeralStats)>)
        requires
            self.wf(),
        ensures
            r@.len() == self.stats_map().len(),
            forall|i: int| 0 <= i < r@.len() ==> #[trigger] self.stats_map().contains_key(r@[i].0@) && self.stats_map()[r@[i].0@]
                == r@[i].1,
    {
        let n = self.stats.len();
        proof {
            self.stats.lemma_len();
        }
        let mut out: Vec<(String, EphemeralStats)> = Vec::new();
        let mut i: usize = 0;
        while i < n
            invariant
                n == self.stats.spec_len(),
                self.stats.wf(),
                i <= n,
                out@.len() == i,
                forall|k: int| 0 <= k < i ==> #[trigger] self.stats@.contains_key(out@[k].0@) && self.stats@[out@[k].0@] == out@[k].1,
            decreases n - i,
        {
            proof {
                self.stats.lemma_entry_in_map(i as int);
            }
            out.push((self.stats.key_at_index(i).clone(), *self.stats.value_at_index(i)));
            i = i + 1;
        }
        out
    }

    /// Forgets, at `now`, the bridges whose last event is `max_age_ms` old
    /// or older; returns how many were forgotten.
    pub fn cleanup_rate_limits(&mut self, max_age_ms: u64, now: u64) -> (removed: usize)
        requires
            old(self).wf(),
            max_age_ms <= now,
        ensures
            final(self).wf(),
            final(self).stats_map() == old(self).stats_map(),
            forall|k: Seq<char>| #[trigger] final(self).last_event().contains_key(k) == (old(self).last_event().contains_key(k)
                && old(self).last_event()[k] > now - max_age_ms),
            forall|k: Seq<char>| #[trigger] final(self).last_event().contains_key(k) ==> final(self).last_event()[k]
                == old(self).last_event()[k],
            removed + final(self).last_event().len() == old(self).last_event().len(),
    {
        proof {
            self.rate_limits.lemma_len();
        }
        let cutoff = now - max_age_ms;
        let n = self.rate_limits.len();
        let mut keep: Vec<bool> = Vec::new();
        let ghost pred = |t: u64| t > cutoff;
        let mut i: usize = 0;
        while i < n
            invariant
                n == self.rate_limits.spec_len(),
                i <= n,
                keep@.len() == i,
                pred == (|t: u64| t > cutoff),
                forall|j: int| 0 <= j < i ==> keep@[j] == pred(#[trigger] self.rate_limits.entries_seq()[j].1),
            decreases n - i,
        {
            keep.push(*self.rate_limits.value_at_index(i) > cutoff);
            i = i + 1;
        }
        let removed = self.rate_limits.retain_marked(&keep, Ghost(pred));
        proof {
            self.rate_limits.lemma_len();
        }
        removed
    }

    /// Empties the deduplication cache.
    pub fn clear_dedup_cache(&mut self)
        requires
            old(self).wf(),
        ensures
            final(self).wf(),
            final(self).dedup_len() == 0,
            final(self).stats_map() == old(self).stats_map(),
            final(self).last_event() == old(self).last_event(),
    {
        self.dedup_cache.clear();
    }

    /// Counts one batch of events from `appservice_id` at `now`: each
    /// processed typing, receipt and presence event (an outcome of `None` is
    /// an event that failed).
    pub fn record_batch(&mut self, appservice_id: &str, outcomes: &Vec<Option<EphemeralKind>>, now: u64)
        requires
            old(self).wf(),
        ensures
            final(self).wf(),
            final(self).last_event() == old(self).last_event(),
            ({
                let s = if old(self).stats_map().contains_key(appservice_id@) {
                    old(self).stats_map()[appservice_id@]
                } else {
                    EphemeralStats {
                        typing_events_processed: 0,
                        read_receipts_processed: 0,
                        presence_events_processed: 0,
                        last_activity_ms: now,
                    }
                };
                final(self).stats_map() == old(self).stats_map().insert(
                    appservice_id@,
                    EphemeralStats {
                        typing_events_processed: add64(
                            s.typing_events_processed,
                            count_kind(outcomes@, EphemeralKind::Typing) as u64,
                        ),
                        read_receipts_processed: add64(
                            s.read_receipts_processed,
                            count_kind(outcomes@, EphemeralKind::Receipt) as u64,
                        ),
                        presence_events_processed: add64(
                            s.presence_events_processed,
                            count_kind(outcomes@, EphemeralKind::Presence) as u64,
                        ),
                        last_activity_ms: now,
                    },
                )
            }),
    {
        let mut typing: u64 = 0;
        let mut receipts: u64 = 0;
        let mut presence: u64 = 0;
        let mut i: usize = 0;
        while i < outcomes.len()
            invariant
                i <= outcomes@.len(),
                typing == count_kind(outcomes@.subrange(0, i as int), EphemeralKind::Typing),
                receipts == count_kind(outcomes@.subrange(0, i as int), EphemeralKind::Receipt),
                presence == count_kind(outcomes@.subrange(0, i as int), EphemeralKind::Presence),
            decreases outcomes@.len() - i,
        {
            proof {
                assert(outcomes@.subrange(0, i + 1).drop_last() =~= outcomes@.subrange(0, i as int));
                lemma_count_kind_bound(outcomes@.subrange(0, i as int), EphemeralKind::Typing);
                lemma_count_kind_bound(outcomes@.subrange(0, i as int), EphemeralKind::Receipt);
                lemma_count_kind_bound(outcomes@.subrange(0, i as int), EphemeralKind::Presence);
            }
            match outcomes[i] {
                Some(EphemeralKind::Typing) => {
                    typing = typing + 1;
                },
                Some(EphemeralKind::Receipt) => {
                    receipts = receipts + 1;
                },
                Some(EphemeralKind::Presence) => {
                    presence = presence + 1;
                },
                _ => {},
            }
            i = i + 1;
        }
        proof {
            assert(outcomes@.subrange(0, i as int) =~= outcomes@);
        }
        self.update_stats(appservice_id, typing, receipts, presence, now);
    }
}

/// A room ID as `RoomId::parse` accepts it: at most 255 bytes, starting with
/// `!`, without a NUL character.
pub open spec fn room_id_valid(t: Seq<char>) -> bool {
    encode_utf8(t).len() <= 255 && t.len() > 0 && t[0] == '!' && !t.contains('\0')
}

/// The typing users of a typing event: the entries of its `user_ids` that
/// are strings (`Some`) holding valid user IDs, in order.
pub open spec fn typing_users(s: Seq<Option<String>>) -> Seq<Seq<char>>
    decreases s.len(),
{
    if s.len() == 0 {
        Seq::empty()
    } else {
        typing_users(s.drop_last()) + match s.last() {
            Some(u) => if spec_valid_user_id(u@) {
                seq![u@]
            } else {
                Seq::empty()
            },
            None => Seq::empty(),
        }
    }
}

/// The characters of each string.
pub open spec fn texts(s: Seq<String>) -> Seq<Seq<char>> {
    s.map_values(|t: String| t@)
}

/// A typing notification to apply: the room, and the users typing in it.
#[derive(Debug)]
pub struct TypingUpdate {
    pub room_id: String,
    pub user_ids: Vec<String>,
}

/// The users listed under one receipt type of a receipt event (`None` where
/// they are not given as a JSON object).
#[derive(Debug)]
pub struct ReceiptTypeEntry {
    pub receipt_type: String,
    pub users: Option<Vec<String>>,
}

/// The receipts a receipt event holds for one event (`None` where they are
/// not given as a JSON object).
#[derive(Debug)]
pub struct ReceiptEntry {
    pub event_id: String,
    pub receipt_types: Option<Vec<ReceiptTypeEntry>>,
}

/// The content of a receipt event, as far as it is read.
#[derive(Debug)]
pub enum ReceiptContent {
    /// The event has no content.
    Missing,
    /// The content is not a JSON object: it holds no receipts.
    NotAnObject,
    /// The content's entries, one per event.
    Entries(Vec<ReceiptEntry>),
}

/// Read receipts to apply in a room: pairs of event ID and user ID.
#[derive(Debug)]
pub struct ReceiptUpdate {
    pub room_id: String,
    pub receipts: Vec<(String, String)>,
}

/// A presence update of a bridge user.
#[derive(Debug)]
pub struct PresenceUpdate {
    pub user_id: String,
    pub presence: String,
}

/// The pairs of `event_id` with each valid user ID of `users`, in order.
pub open spec fn read_by(event_id: Seq<char>, users: Seq<String>) -> Seq<(Seq<char>, Seq<char>)>
    decreases users.len(),
{
    if users.len() == 0 {
        Seq::empty()
    } else {
        read_by(event_id, users.drop_last()) + if spec_valid_user_id(users.last()@) {
            seq![(event_id, users.last()@)]
        } else {
            Seq::empty()
        }
    }
}

/// The read receipts for `event_id` among its receipt types: those of type
/// `m.read` whose users are given as an object.
pub open spec fn reads_of_types(event_id: Seq<char>, types: Seq<ReceiptTypeEntry>) -> Seq<(Seq<char>, Seq<char>)>
    decreases types.len(),
{
    if types.len() == 0 {
        Seq::empty()
    } else {
        reads_of_types(event_id, types.drop_last()) + {
            let t = types.last();
            if t.receipt_type@ == "m.read"@ && t.users is Some {
                read_by(event_id, t.users->0@)
            } else {
                Seq::empty()
            }
        }
    }
}

/// The read receipts of a receipt event's entries: those for valid event
/// IDs whose receipts are given as an object, in order.
pub open spec fn reads_of_entries(entries: Seq<ReceiptEntry>) -> Seq<(Seq<char>, Seq<char>)>
    decreases entries.len(),
{
    if entries.len() == 0 {
        Seq::empty()
    } else {
        reads_of_entries(entries.drop_last()) + {
            let e = entries.last();
            if event_id_valid(e.event_id@) && e.receipt_types is Some {
                reads_of_types(e.event_id@, e.receipt_types->0@)
            } else {
                Seq::empty()
            }
        }
    }
}

/// Appends the pairs of `event_id` with each valid user of `users`.
fn push_read_by(event_id: &String, users: &Vec<String>, out: &mut Vec<(String, String)>)
    ensures
        pair_views(final(out)@) == pair_views(old(out)@) + read_by(event_id@, users@),
{
    let mut i: usize = 0;
    while i < users.len()
        invariant
            i <= users@.len(),
            pair_views(out@) == pair_views(old(out)@) + read_by(event_id@, users@.subrange(0, i as int)),
        decreases users@.len() - i,
    {
        proof {
            assert(users@.subrange(0, i + 1).drop_last() =~= users@.subrange(0, i as int));
        }
        let ghost before = out@;
        if valid_user_id(users[i].as_str()) {
            out.push((event_id.clone(), users[i].clone()));
            proof {
                assert(pair_views(out@) =~= pair_views(before).push((event_id@, users@[i as int]@)));
            }
        }
        i = i + 1;
    }
    proof {
        assert(users@.subrange(0, users@.len() as int) =~= users@);
    }
}

/// Appends the read receipts for `event_id` among `types`.
fn push_reads_of_types(event_id: &String, types: &Vec<ReceiptTypeEntry>, out: &mut Vec<(String, String)>)
    ensures
        pair_views(final(out)@) == pair_views(old(out)@) + reads_of_types(event_id@, types@),
{
    let mut i: usize = 0;
    while i < types.len()
        invariant
            i <= types@.len(),
            pair_views(out@) == pair_views(old(out)@) + reads_of_types(event_id@, types@.subrange(0, i as int)),
        decreases types@.len() - i,
    {
        proof {
            assert(types@.subrange(0, i + 1).drop_last() =~= types@.subrange(0, i as int));
            reveal_strlit("m.read");
        }
        let t = &types[i];
        if str_eq(t.receipt_type.as_str(), "m.read") {
            match &t.users {
                Some(users) => {
                    push_read_by(event_id, users, out);
                },
                None => {},
            }
        }
        i = i + 1;
    }
    proof {
        assert(types@.subrange(0, types@.len() as int) =~= types@);
    }
}

impl EphemeralEventProcessor {
    /// The typing notification a typing event asks for: its room
    /// (`room_id`, which must be a valid room ID), and of its `user_ids`
    /// (`None` where the event has none or they are not an array; an entry
    /// is `None` where it is not a string) those that are valid user IDs.
    /// The caller applies it with the bridge-compatible timeout.
    pub fn process_typing_event(
        room_id: Option<&str>,
        has_content: bool,
        user_ids: Option<&Vec<Option<String>>>,
    ) -> (r: Result<TypingUpdate, ServiceError>)
        ensures
            room_id is None ==> (r matches Err(e) && is_error(e, ErrorKind::InvalidParam, "Invalid room ID in typing event"@)),
            room_id matches Some(id) ==> {
                &&& !room_id_valid(id@) ==> (r matches Err(e) && is_error(
                    e,
                    ErrorKind::InvalidParam,
                    "Invalid room ID in typing event"@,
                ))
                &&& room_id_valid(id@) && !has_content ==> (r matches Err(e) && is_error(e, ErrorKind::InvalidParam, "Missing content in typing event"@))
                &&& room_id_valid(id@) && has_content && user_ids is None ==> (r matches Err(e) && is_error(
                    e,
                    ErrorKind::InvalidParam,
                    "Invalid user_ids in typing event"@,
                ))
                &&& user_ids matches Some(u) ==> room_id_valid(id@) && has_content ==> (r matches Ok(t) && t.room_id@ == id@ && texts(t.user_ids@)
                    == typing_users(u@))
            },
    {
        let room = match room_id {
            Some(id) => {
                if !valid_room_id(id) {
                    return Err(make_error(ErrorKind::InvalidParam, "Invalid room ID in typing event"));
                }
                id
            },
            None => {
                return Err(make_error(ErrorKind::InvalidParam, "Invalid room ID in typing event"));
            },
        };
        if !has_content {
            return Err(make_error(ErrorKind::InvalidParam, "Missing content in typing event"));
        }
        let entries = match user_ids {
            Some(u) => u,
            None => {
                return Err(make_error(ErrorKind::InvalidParam, "Invalid user_ids in typing event"));
            },
        };
        let mut users: Vec<String> = Vec::new();
        let mut i: usize = 0;
        while i < entries.len()
            invariant
                i <= entries@.len(),
                texts(users@) == typing_users(entries@.subrange(0, i as int)),
            decreases entries@.len() - i,
        {
            proof {
                assert(entries@.subrange(0, i + 1).drop_last() =~= entries@.subrange(0, i as int));
            }
            let ghost before = users@;
            match &entries[i] {
                Some(u) => {
                    if valid_user_id(u.as_str()) {
                        users.push(u.clone());
                        proof {
                            assert(texts(users@) =~= texts(before).push(u@));
                        }
                    }
                },
                None => {},
            }
            i = i + 1;
        }
        proof {
            assert(entries@.subrange(0, entries@.len() as int) =~= entries@);
        }
        Ok(TypingUpdate { room_id: String::from_str(room), user_ids: users })
    }

    /// The read receipts a receipt event asks for: its room (`room_id`,
    /// which must be a valid room ID) and, for each entry whose event ID is
    /// valid, the users with a receipt of type `m.read` whose user IDs are
    /// valid, in order. Content that is not an object holds no receipts.
    pub fn process_receipt_event(room_id: Option<&str>, content: &ReceiptContent) -> (r: Result<ReceiptUpdate, ServiceError>)
        ensures
            room_id is None ==> (r matches Err(e) && is_error(e, ErrorKind::InvalidParam, "Invalid room ID in receipt event"@)),
            room_id matches Some(id) ==> !room_id_valid(id@) ==> (r matches Err(e) && is_error(
                e,
                ErrorKind::InvalidParam,
                "Invalid room ID in receipt event"@,
            )),
            room_id matches Some(id) ==> room_id_valid(id@) ==> match content {
                ReceiptContent::Missing => r matches Err(e) && is_error(
                    e,
                    ErrorKind::InvalidParam,
                    "Missing content in receipt event"@,
                ),
                ReceiptContent::NotAnObject => r matches Ok(u) && u.room_id@ == id@ && u.receipts@.len() == 0,
                ReceiptContent::Entries(entries) => r matches Ok(u) && u.room_id@ == id@ && pair_views(u.receipts@)
                    == reads_of_entries(entries@),
            },
    {
        let room = match room_id {
            Some(id) => {
                if !valid_room_id(id) {
                    return Err(make_error(ErrorKind::InvalidParam, "Invalid room ID in receipt event"));
                }
                id
            },
            None => {
                return Err(make_error(ErrorKind::InvalidParam, "Invalid room ID in receipt event"));
            },
        };
        let entries = match content {
            ReceiptContent::Missing => {
                return Err(make_error(ErrorKind::InvalidParam, "Missing content in receipt event"));
            },
            ReceiptContent::NotAnObject => {
                return Ok(ReceiptUpdate { room_id: String::from_str(room), receipts: Vec::new() });
            },
            ReceiptContent::Entries(entries) => entries,
        };
        let mut receipts: Vec<(String, String)> = Vec::new();
        let mut i: usize = 0;
        while i < entries.len()
            invariant
                i <= entries@.len(),
                pair_views(receipts@) == reads_of_entries(entries@.subrange(0, i as int)),
            decreases entries@.len() - i,
        {
            proof {
                assert(entries@.subrange(0, i + 1).drop_last() =~= entries@.subrange(0, i as int));
            }
            let e = &entries[i];
            if valid_event_id(e.event_id.as_str()) {
                match &e.receipt_types {
                    Some(types) => {
                        push_reads_of_types(&e.event_id, types, &mut receipts);
                    },
                    None => {},
                }
            }
            i = i + 1;
        }
        proof {
            assert(entries@.subrange(0, entries@.len() as int) =~= entries@);
        }
        Ok(ReceiptUpdate { room_id: String::from_str(room), receipts })
    }

    /// The presence update a presence event asks for: the user of its
    /// content (`user_id`, which must be a valid user ID) and its
    /// `presence`, `offline` where the event gives none.
    pub fn process_presence_event(has_content: bool, user_id: Option<&str>, presence: Option<&str>) -> (r: Result<
        PresenceUpdate,
        ServiceError,
    >)
        ensures
            !has_content ==> (r matches Err(e) && is_error(e, ErrorKind::InvalidParam, "Missing content in presence event"@)),
            has_content && user_id is None ==> (r matches Err(e) && is_error(
                e,
                ErrorKind::InvalidParam,
                "Invalid user ID in presence event"@,
            )),
            user_id matches Some(u) ==> has_content && !spec_valid_user_id(u@) ==> (r matches Err(e) && is_error(
                e,
                ErrorKind::InvalidParam,
                "Invalid user ID in presence event"@,
            )),
            user_id matches Some(u) ==> has_content && spec_valid_user_id(u@) ==> (r matches Ok(p) && p.user_id@ == u@
                && p.presence@ == match presence {
                Some(t) => t@,
                None => "offline"@,
            }),
    {
        if !has_content {
            return Err(make_error(ErrorKind::InvalidParam, "Missing content in presence event"));
        }
        let user = match user_id {
            Some(u) => {
                if !valid_user_id(u) {
                    return Err(make_error(ErrorKind::InvalidParam, "Invalid user ID in presence event"));
                }
                u
            },
            None => {
                return Err(make_error(ErrorKind::InvalidParam, "Invalid user ID in presence event"));
            },
        };
        let p = match presence {
            Some(t) => String::from_str(t),
            None => String::from_str("offline"),
        };
        Ok(PresenceUpdate { user_id: String::from_str(user), presence: p })
    }
}

} // verus!
