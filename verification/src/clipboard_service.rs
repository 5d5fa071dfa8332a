//! The clipboard store: a keyed collection of entries with a per-entry size
//! bound, time-based eviction, per-user and per-device listing, and a
//! broadcast of every stored entry to the fanout channel.
//!
//! The collection is modelled as a sequence with pairwise-distinct ids.
//! Every time-dependent operation exists in two forms: one taking the instant
//! `now` explicitly, verified for every possible instant, and one under the
//! store's traditional name that reads the clock and delegates.

use vstd::prelude::*;
use vstd::multiset::Multiset;
use vstd::pervasive::VecAdditionalExecFns;
use vstd::string::StringSliceAdditionalSpecFns;

use crate::clock::now_unix_seconds;
use crate::config::Config;
use crate::errors::AppError;
use crate::errors::AppResult;
use crate::fanout::fanout_channel;
use crate::fanout::fanout_send;
use crate::fanout::fanout_subscribe;
use crate::models::ClipboardData;
use crate::models::byte_len;

verus! {

broadcast use {vstd::seq_lib::group_to_multiset_ensures, vstd::multiset::group_multiset_axioms};

/// No two entries share an id.
pub open spec fn ids_unique(s: Seq<ClipboardData>) -> bool {
    forall|i: int, j: int| 0 <= i < j < s.len() ==> s[i].id != s[j].id
}

/// Some entry carries this id.
pub open spec fn has_id(s: Seq<ClipboardData>, id: u128) -> bool {
    exists|i: int| 0 <= i < s.len() && s[i].id == id
}

/// The position of the entry carrying this id.
pub open spec fn index_of_id(s: Seq<ClipboardData>, id: u128) -> int {
    choose|i: int| 0 <= i < s.len() && s[i].id == id
}

/// The entry carrying this id.
pub open spec fn entry_of_id(s: Seq<ClipboardData>, id: u128) -> ClipboardData {
    s[index_of_id(s, id)]
}

/// Some entry belongs to this user.
pub open spec fn has_user_entry(s: Seq<ClipboardData>, user_id: u128) -> bool {
    exists|i: int| 0 <= i < s.len() && s[i].user_id == user_id
}

/// An entry as it is stored at instant `now`: `received_at` stamped, and an
/// unset `sent_at` defaulted to the same instant.
pub open spec fn stamped(e: ClipboardData, now: u64) -> ClipboardData {
    ClipboardData {
        sent_at: if e.sent_at == 0 {
            now
        } else {
            e.sent_at
        },
        received_at: now,
        ..e
    }
}

/// The store after writing `e`: an entry with the same id is replaced in
/// place, otherwise `e` is appended.
pub open spec fn upsert(s: Seq<ClipboardData>, e: ClipboardData) -> Seq<ClipboardData> {
    if has_id(s, e.id) {
        s.update(index_of_id(s, e.id), e)
    } else {
        s.push(e)
    }
}

/// The entries of one user, in store order.
pub open spec fn user_entries(s: Seq<ClipboardData>, user_id: u128) -> Seq<ClipboardData>
    decreases s.len(),
{
    if s.len() == 0 {
        Seq::empty()
    } else if s.last().user_id == user_id {
        user_entries(s.drop_last(), user_id).push(s.last())
    } else {
        user_entries(s.drop_last(), user_id)
    }
}

/// The entries of one device, in store order.
pub open spec fn device_entries(s: Seq<ClipboardData>, device_id: u128) -> Seq<ClipboardData>
    decreases s.len(),
{
    if s.len() == 0 {
        Seq::empty()
    } else if s.last().device_id == device_id {
        device_entries(s.drop_last(), device_id).push(s.last())
    } else {
        device_entries(s.drop_last(), device_id)
    }
}

/// The entries that survive deleting one user's data, in store order.
pub open spec fn without_user(s: Seq<ClipboardData>, user_id: u128) -> Seq<ClipboardData>
    decreases s.len(),
{
    if s.len() == 0 {
        Seq::empty()
    } else if s.last().user_id != user_id {
        without_user(s.drop_last(), user_id).push(s.last())
    } else {
        without_user(s.drop_last(), user_id)
    }
}

/// Whether an entry's age at instant `now` has reached the retention period.
pub open spec fn expired(e: ClipboardData, now: u64, retention: u64) -> bool {
    now - e.received_at >= retention
}

/// The entries that survive an eviction pass at instant `now`, in store order.
pub open spec fn live_entries(s: Seq<ClipboardData>, now: u64, retention: u64) -> Seq<ClipboardData>
    decreases s.len(),
{
    if s.len() == 0 {
        Seq::empty()
    } else if !expired(s.last(), now, retention) {
        live_entries(s.drop_last(), now, retention).push(s.last())
    } else {
        live_entries(s.drop_last(), now, retention)
    }
}

/// Newest entries first: `received_at` never increases along the sequence.
pub open spec fn newest_first(s: Seq<ClipboardData>) -> bool {
    forall|i: int, j: int| 0 <= i < j < s.len() ==> s[i].received_at >= s[j].received_at
}

/// The concurrent, bounded clipboard store. Writes replace any entry with the
/// same id, publish the stored value to the fanout channel, and never let an
/// entry exceed the configured size.
pub struct ClipboardService {
    max_size: usize,
    retention_period: u64,
    entries: Vec<ClipboardData>,
    tx: tokio::sync::broadcast::Sender<ClipboardData>,
}

impl ClipboardService {
    /// The stored entries, in store order.
    pub closed spec fn entries_spec(&self) -> Seq<ClipboardData> {
        self.entries@
    }

    /// The configured per-entry size bound, in bytes.
    pub closed spec fn max_size_spec(&self) -> usize {
        self.max_size
    }

    /// The configured retention period, in seconds.
    pub closed spec fn retention_spec(&self) -> u64 {
        self.retention_period
    }

    /// The store's invariant: ids are pairwise distinct.
    pub open spec fn wf(&self) -> bool {
        ids_unique(self.entries_spec())
    }

    /// A fresh, empty store with the configured limits and a fanout queue of
    /// the configured capacity.
    pub fn new(config: &Config) -> (r: Self)
        requires
            0 < config.clipboard.broadcast_capacity <= usize::MAX / 2,
        ensures
            r.wf(),
            r.entries_spec() == Seq::<ClipboardData>::empty(),
            r.max_size_spec() == config.clipboard.max_size,
            r.retention_spec() == config.clipboard.retention_period,
    {
        let r = ClipboardService {
            max_size: config.clipboard.max_size,
            retention_period: config.clipboard.retention_period,
            entries: Vec::new(),
            tx: fanout_channel(config.clipboard.broadcast_capacity),
        };
        proof {
            assert(r.entries_spec() =~= Seq::<ClipboardData>::empty());
        }
        r
    }

    /// A new consumer of the fanout channel; it observes entries stored after
    /// this call, lossily.
    pub fn subscribe(&self) -> tokio::sync::broadcast::Receiver<ClipboardData> {
        fanout_subscribe(&self.tx)
    }

    /// The position of the entry carrying `id`, if any.
    fn find_index(&self, id: u128) -> (r: Option<usize>)
        requires
            self.wf(),
        ensures
            r matches Some(i) ==> has_id(self.entries_spec(), id) && i == index_of_id(
                self.entries_spec(),
                id,
            ) && i < self.entries_spec().len(),
            r is None ==> !has_id(self.entries_spec(), id),
    {
        let n = self.entries.len();
        let mut i: usize = 0;
        while i < n
            invariant
                n == self.entries@.len(),
                i <= n,
                self.wf(),
                forall|j: int| 0 <= j < i ==> self.entries@[j].id != id,
            decreases n - i,
        {
            if self.entries[i].id == id {
                proof {
                    assert(self.entries@[i as int].id == id);
                    let j = index_of_id(self.entries@, id);
                    assert(0 <= j < self.entries@.len() && self.entries@[j].id == id);
                    assert(j == i as int);
                }
                return Some(i);
            }
            i += 1;
        }
        None
    }

    /// Store one entry as of instant `now`. An entry over the size bound is
    /// rejected and the store left untouched; otherwise the stamped entry
    /// replaces any entry with the same id, is published to the fanout
    /// channel, and is returned.
    pub fn save_clipboard_at(&mut self, data: ClipboardData, now: u64) -> (r: AppResult<
        ClipboardData,
    >)
        requires
            old(self).wf(),
        ensures
            final(self).wf(),
            final(self).max_size_spec() == old(self).max_size_spec(),
            final(self).retention_spec() == old(self).retention_spec(),
            byte_len(data.content@) > old(self).max_size_spec() ==> final(self).entries_spec()
                == old(self).entries_spec() && (r matches Err(e) && e matches
                AppError::ValidationError(m) && m@ == "Content exceeds maximum size"@),
            byte_len(data.content@) <= old(self).max_size_spec() ==> r == Ok::<
                ClipboardData,
                AppError,
            >(stamped(data, now)) && final(self).entries_spec() == upsert(
                old(self).entries_spec(),
                stamped(data, now),
            ),
    {
        let content_len = data.content.as_str().as_bytes().len();
        proof {
            assert(content_len == byte_len(data.content@));
        }
        if content_len > self.max_size {
            return Err(AppError::ValidationError("Content exceeds maximum size".to_owned()));
        }
        let mut stored = data;
        stored.received_at = now;
        if stored.sent_at == 0 {
            stored.sent_at = now;
        }
        let ghost snap = self.entries@;
        match self.find_index(stored.id) {
            Some(i) => {
                self.entries.set(i, stored.clone());
                proof {
                    assert forall|a: int, b: int|
                        0 <= a < b < self.entries@.len() implies self.entries@[a].id
                        != self.entries@[b].id by {
                        assert(self.entries@[a].id == snap[a].id);
                        assert(self.entries@[b].id == snap[b].id);
                    }
                }
            },
            None => {
                self.entries.push(stored.clone());
            },
        }
        let _ = fanout_send(&self.tx, stored.clone());
        Ok(stored)
    }

    /// Store one entry as of the current instant. Fails with an internal
    /// error, leaving the store untouched, only if the clock is unreadable.
    pub fn save_clipboard(&mut self, data: ClipboardData) -> (r: AppResult<ClipboardData>)
        requires
            old(self).wf(),
        ensures
            final(self).wf(),
            final(self).max_size_spec() == old(self).max_size_spec(),
            final(self).retention_spec() == old(self).retention_spec(),
            byte_len(data.content@) > old(self).max_size_spec() ==> final(self).entries_spec()
                == old(self).entries_spec() && (r matches Err(e) && e matches
                AppError::ValidationError(m) && m@ == "Content exceeds maximum size"@),
            byte_len(data.content@) <= old(self).max_size_spec() ==> ((exists|now: u64|
                r == Ok::<ClipboardData, AppError>(stamped(data, now))
                    && final(self).entries_spec() == upsert(old(self).entries_spec(), stamped(data, now)))
                || (final(self).entries_spec() == old(self).entries_spec()
                    && (r matches Err(e) && e matches AppError::InternalError(_)))),
    {
        let content_len = data.content.as_str().as_bytes().len();
        proof {
            assert(content_len == byte_len(data.content@));
        }
        if content_len > self.max_size {
            return Err(AppError::ValidationError("Content exceeds maximum size".to_owned()));
        }
        let now = match now_unix_seconds() {
            Some(n) => n,
            None => {
                return Err(AppError::InternalError("Time error".to_owned()));
            },
        };
        self.save_clipboard_at(data, now)
    }

    /// Look one entry up by id.
    pub fn get_clipboard(&self, id: u128) -> (r: AppResult<ClipboardData>)
        requires
            self.wf(),
        ensures
            has_id(self.entries_spec(), id) ==> r == Ok::<ClipboardData, AppError>(
                entry_of_id(self.entries_spec(), id),
            ),
            !has_id(self.entries_spec(), id) ==> r == Err::<ClipboardData, AppError>(
                AppError::ClipboardNotFound(id),
            ),
    {
        match self.find_index(id) {
            Some(i) => Ok(self.entries[i].clone()),
            None => Err(AppError::ClipboardNotFound(id)),
        }
    }

    /// All entries of one user, newest first. The store's policy for empty
    /// matches is a failure, never an empty list.
    pub fn get_user_clipboard(&self, user_id: u128) -> (r: AppResult<Vec<ClipboardData>>)
        requires
            self.wf(),
        ensures
            r matches Ok(v) ==> v@.to_multiset() == user_entries(
                self.entries_spec(),
                user_id,
            ).to_multiset() && newest_first(v@) && v@.len() > 0,
            r is Err <==> user_entries(self.entries_spec(), user_id).len() == 0,
            r matches Err(e) ==> e matches AppError::ValidationError(m) && m@
                == "No clipboard data found for user"@,
    {
        let matches = self.entries_for_user(user_id);
        if matches.len() == 0 {
            return Err(AppError::ValidationError("No clipboard data found for user".to_owned()));
        }
        Ok(sort_entries_desc(matches))
    }

    /// All entries of one device, newest first. The store's policy for empty
    /// matches is a failure, never an empty list.
    pub fn get_device_clipboard(&self, device_id: u128) -> (r: AppResult<Vec<ClipboardData>>)
        requires
            self.wf(),
        ensures
            r matches Ok(v) ==> v@.to_multiset() == device_entries(
                self.entries_spec(),
                device_id,
            ).to_multiset() && newest_first(v@) && v@.len() > 0,
            r is Err <==> device_entries(self.entries_spec(), device_id).len() == 0,
            r matches Err(e) ==> e matches AppError::ValidationError(m) && m@
                == "No clipboard data found for device"@,
    {
        let matches = self.entries_for_device(device_id);
        if matches.len() == 0 {
            return Err(AppError::ValidationError("No clipboard data found for device".to_owned()));
        }
        Ok(sort_entries_desc(matches))
    }

    fn entries_for_user(&self, user_id: u128) -> (r: Vec<ClipboardData>)
        ensures
            r@ == user_entries(self.entries_spec(), user_id),
    {
        let n = self.entries.len();
        let mut r: Vec<ClipboardData> = Vec::new();
        let mut i: usize = 0;
        proof {
            assert(self.entries@.take(0) =~= Seq::<ClipboardData>::empty());
        }
        while i < n
            invariant
                n == self.entries@.len(),
                i <= n,
                r@ == user_entries(self.entries@.take(i as int), user_id),
            decreases n - i,
        {
            proof {
                assert(self.entries@.take(i + 1).drop_last() =~= self.entries@.take(i as int));
                assert(self.entries@.take(i + 1).last() == self.entries@[i as int]);
            }
            if self.entries[i].user_id == user_id {
                r.push(self.entries[i].clone());
            }
            i += 1;
        }
        proof {
            assert(self.entries@.take(n as int) =~= self.entries@);
        }
        r
    }

    fn entries_for_device(&self, device_id: u128) -> (r: Vec<ClipboardData>)
        ensures
            r@ == device_entries(self.entries_spec(), device_id),
    {
        let n = self.entries.len();
        let mut r: Vec<ClipboardData> = Vec::new();
        let mut i: usize = 0;
        proof {
            assert(self.entries@.take(0) =~= Seq::<ClipboardData>::empty());
        }
        while i < n
            invariant
                n == self.entries@.len(),
                i <= n,
                r@ == device_entries(self.entries@.take(i as int), device_id),
            decreases n - i,
        {
            proof {
                assert(self.entries@.take(i + 1).drop_last() =~= self.entries@.take(i as int));
                assert(self.entries@.take(i + 1).last() == self.entries@[i as int]);
            }
            if self.entries[i].device_id == device_id {
                r.push(self.entries[i].clone());
            }
            i += 1;
        }
        proof {
            assert(self.entries@.take(n as int) =~= self.entries@);
        }
        r
    }

    /// Delete one entry. Absent ids are reported as not found; an entry of
    /// another user is left in place and the caller rejected.
    pub fn delete_clipboard(&mut self, id: u128, user_id: u128) -> (r: AppResult<()>)
        requires
            old(self).wf(),
        ensures
            final(self).wf(),
            final(self).max_size_spec() == old(self).max_size_spec(),
            final(self).retention_spec() == old(self).retention_spec(),
            !has_id(old(self).entries_spec(), id) ==> final(self).entries_spec() == old(
                self,
            ).entries_spec() && r == Err::<(), AppError>(AppError::ClipboardNotFound(id)),
            has_id(old(self).entries_spec(), id) && entry_of_id(old(self).entries_spec(), id).user_id
                != user_id ==> final(self).entries_spec() == old(self).entries_spec() && r == Err::<
                (),
                AppError,
            >(AppError::DeviceUnauthorized(id)),
            has_id(old(self).entries_spec(), id) && entry_of_id(old(self).entries_spec(), id).user_id
                == user_id ==> final(self).entries_spec() == old(self).entries_spec().remove(
                index_of_id(old(self).entries_spec(), id),
            ) && r == Ok::<(), AppError>(()),
    {
        let ghost snap = self.entries@;
        match self.find_index(id) {
            None => Err(AppError::ClipboardNotFound(id)),
            Some(i) => {
                if self.entries[i].user_id != user_id {
                    return Err(AppError::DeviceUnauthorized(id));
                }
                let _ = self.entries.remove(i);
                proof {
                    assert forall|a: int, b: int|
                        0 <= a < b < self.entries@.len() implies self.entries@[a].id
                        != self.entries@[b].id by {
                        assert(self.entries@ == snap.remove(i as int));
                    }
                }
                Ok(())
            },
        }
    }

    /// Delete every entry of one user. The store's policy for empty matches
    /// holds here too: deleting nothing is a failure.
    pub fn delete_user_clipboard(&mut self, user_id: u128) -> (r: AppResult<()>)
        requires
            old(self).wf(),
        ensures
            final(self).wf(),
            final(self).max_size_spec() == old(self).max_size_spec(),
            final(self).retention_spec() == old(self).retention_spec(),
            final(self).entries_spec() == without_user(old(self).entries_spec(), user_id),
            r == Ok::<(), AppError>(()) <==> has_user_entry(old(self).entries_spec(), user_id),
            r matches Err(e) ==> e matches AppError::ValidationError(m) && m@
                == "No clipboard data found for user"@,
    {
        let n = self.entries.len();
        let mut kept: Vec<ClipboardData> = Vec::new();
        let mut i: usize = 0;
        proof {
            assert(self.entries@.take(0) =~= Seq::<ClipboardData>::empty());
        }
        while i < n
            invariant
                n == self.entries@.len(),
                i <= n,
                kept@ == without_user(self.entries@.take(i as int), user_id),
            decreases n - i,
        {
            proof {
                assert(self.entries@.take(i + 1).drop_last() =~= self.entries@.take(i as int));
                assert(self.entries@.take(i + 1).last() == self.entries@[i as int]);
            }
            if self.entries[i].user_id != user_id {
                kept.push(self.entries[i].clone());
            }
            i += 1;
        }
        proof {
            assert(self.entries@.take(n as int) =~= self.entries@);
            lemma_without_user_shape(self.entries@, user_id);
        }
        let removed_any = kept.len() < self.entries.len();
        self.entries = kept;
        if removed_any {
            Ok(())
        } else {
            Err(AppError::ValidationError("No clipboard data found for user".to_owned()))
        }
    }

    /// Evict, as of instant `now`, every entry whose age has reached the
    /// retention period. Entries with a reading in the future are kept.
    pub fn cleanup_old_data_at(&mut self, now: u64) -> (r: AppResult<()>)
        requires
            old(self).wf(),
        ensures
            final(self).wf(),
            final(self).max_size_spec() == old(self).max_size_spec(),
            final(self).retention_spec() == old(self).retention_spec(),
            final(self).entries_spec() == live_entries(
                old(self).entries_spec(),
                now,
                old(self).retention_spec(),
            ),
            r == Ok::<(), AppError>(()),
    {
        let n = self.entries.len();
        let mut kept: Vec<ClipboardData> = Vec::new();
        let mut i: usize = 0;
        proof {
            assert(self.entries@.take(0) =~= Seq::<ClipboardData>::empty());
        }
        while i < n
            invariant
                n == self.entries@.len(),
                i <= n,
                kept@ == live_entries(self.entries@.take(i as int), now, self.retention_period),
            decreases n - i,
        {
            proof {
                assert(self.entries@.take(i + 1).drop_last() =~= self.entries@.take(i as int));
                assert(self.entries@.take(i + 1).last() == self.entries@[i as int]);
            }
            let e = &self.entries[i];
            let is_expired = now >= e.received_at && now - e.received_at >= self.retention_period;
            if !is_expired {
                kept.push(self.entries[i].clone());
            }
            i += 1;
        }
        proof {
            assert(self.entries@.take(n as int) =~= self.entries@);
            lemma_live_entries_shape(self.entries@, now, self.retention_period);
        }
        self.entries = kept;
        Ok(())
    }

    /// Evict expired entries as of the current instant. Fails, leaving the
    /// store untouched, only if the clock is unreadable.
    pub fn cleanup_old_data(&mut self) -> (r: AppResult<()>)
        requires
            old(self).wf(),
        ensures
            final(self).wf(),
            final(self).max_size_spec() == old(self).max_size_spec(),
            final(self).retention_spec() == old(self).retention_spec(),
            (exists|now: u64|
                r == Ok::<(), AppError>(()) && final(self).entries_spec() == live_entries(
                    old(self).entries_spec(),
                    now,
                    old(self).retention_spec(),
                )) || (final(self).entries_spec() == old(self).entries_spec() && (r matches Err(e)
                && e matches AppError::InternalError(_))),
    {
        let now = match now_unix_seconds() {
            Some(n) => n,
            None => {
                return Err(AppError::InternalError("Time error".to_owned()));
            },
        };
        let r = self.cleanup_old_data_at(now);
        r
    }

    /// The newest entry of one user. A user with no entries is reported as
    /// not found; the error carries the user's id, since that is what the
    /// lookup was keyed by.
    pub fn get_latest_clipboard(&self, user_id: u128) -> (r: AppResult<ClipboardData>)
        requires
            self.wf(),
        ensures
            r matches Ok(e) ==> self.entries_spec().contains(e) && e.user_id == user_id && (forall|
                i: int,
            |
                0 <= i < self.entries_spec().len() && self.entries_spec()[i].user_id == user_id
                    ==> self.entries_spec()[i].received_at <= e.received_at),
            r is Err <==> !has_user_entry(self.entries_spec(), user_id),
            r matches Err(e) ==> e == AppError::ClipboardNotFound(user_id),
    {
        let n = self.entries.len();
        let mut best: Option<usize> = None;
        let mut i: usize = 0;
        while i < n
            invariant
                n == self.entries@.len(),
                i <= n,
                best matches Some(b) ==> b < i && self.entries@[b as int].user_id == user_id && (
                forall|j: int|
                    0 <= j < i && self.entries@[j].user_id == user_id ==> self.entries@[j].received_at
                        <= self.entries@[b as int].received_at),
                best is None ==> forall|j: int| 0 <= j < i ==> self.entries@[j].user_id != user_id,
            decreases n - i,
        {
            if self.entries[i].user_id == user_id {
                match best {
                    None => {
                        best = Some(i);
                    },
                    Some(b) => {
                        if self.entries[i].received_at > self.entries[b].received_at {
                            best = Some(i);
                        }
                    },
                }
            }
            i += 1;
        }
        match best {
            Some(b) => {
                proof {
                    assert(self.entries_spec().contains(self.entries@[b as int]));
                }
                Ok(self.entries[b].clone())
            },
            None => Err(AppError::ClipboardNotFound(user_id)),
        }
    }
}

/// The entries surviving a per-user delete are exactly those of other users:
/// none of the user's entries survive, every survivor stood in the store, and
/// the result is no longer than the store. Distinct ids are preserved.
proof fn lemma_without_user_shape(s: Seq<ClipboardData>, user_id: u128)
    ensures
        forall|k: int|
            0 <= k < without_user(s, user_id).len() ==> (#[trigger] without_user(s, user_id)[k]).user_id
                != user_id && s.contains(without_user(s, user_id)[k]),
        without_user(s, user_id).len() <= s.len(),
        without_user(s, user_id).len() == s.len() <==> !has_user_entry(s, user_id),
        ids_unique(s) ==> ids_unique(without_user(s, user_id)),
    decreases s.len(),
{
    if s.len() > 0 {
        lemma_without_user_shape(s.drop_last(), user_id);
        let sub = without_user(s.drop_last(), user_id);
        let f = without_user(s, user_id);
        assert forall|k: int| 0 <= k < f.len() implies (#[trigger] f[k]).user_id != user_id
            && s.contains(f[k]) by {
            if s.last().user_id != user_id && k == f.len() - 1 {
                assert(f[k] == s.last());
                assert(s[s.len() - 1] == s.last());
            } else {
                assert(f[k] == sub[k]);
                assert(sub[k].user_id != user_id && s.drop_last().contains(sub[k]));
                let j = choose|j: int| 0 <= j < s.drop_last().len() && s.drop_last()[j] == sub[k];
                assert(s[j] == sub[k]);
            }
        }
        if has_user_entry(s, user_id) {
            let w = choose|i: int| 0 <= i < s.len() && s[i].user_id == user_id;
            if w < s.len() - 1 {
                assert(s.drop_last()[w].user_id == user_id);
                assert(has_user_entry(s.drop_last(), user_id));
            }
        }
        if has_user_entry(s.drop_last(), user_id) {
            let w = choose|i: int|
                0 <= i < s.drop_last().len() && s.drop_last()[i].user_id == user_id;
            assert(s[w].user_id == user_id);
            assert(has_user_entry(s, user_id));
        }
        if s.last().user_id == user_id {
            assert(s[s.len() - 1].user_id == user_id);
            assert(has_user_entry(s, user_id));
        }
        if ids_unique(s) {
            assert(ids_unique(s.drop_last())) by {
                assert forall|a: int, b: int|
                    0 <= a < b < s.drop_last().len() implies s.drop_last()[a].id
                    != s.drop_last()[b].id by {
                    assert(s[a].id != s[b].id);
                }
            }
            if s.last().user_id != user_id {
                assert forall|a: int, b: int| 0 <= a < b < f.len() implies f[a].id != f[b].id by {
                    if b < f.len() - 1 {
                        assert(f[a] == sub[a] && f[b] == sub[b]);
                    } else {
                        assert(f[a] == sub[a] && f[b] == s.last());
                        assert(sub[a].user_id != user_id && s.drop_last().contains(sub[a]));
                        let j = choose|j: int|
                            0 <= j < s.drop_last().len() && s.drop_last()[j] == sub[a];
                        assert(s[j] == sub[a]);
                        assert(s[j].id != s[s.len() - 1].id);
                    }
                }
            }
        }
    }
}

/// The entries surviving an eviction pass are exactly the unexpired ones:
/// every survivor is unexpired and stood in the store. Distinct ids are
/// preserved.
proof fn lemma_live_entries_shape(s: Seq<ClipboardData>, now: u64, retention: u64)
    ensures
        forall|k: int|
            0 <= k < live_entries(s, now, retention).len() ==> !expired(
                #[trigger] live_entries(s, now, retention)[k],
                now,
                retention,
            ) && s.contains(live_entries(s, now, retention)[k]),
        live_entries(s, now, retention).len() <= s.len(),
        ids_unique(s) ==> ids_unique(live_entries(s, now, retention)),
    decreases s.len(),
{
    if s.len() > 0 {
        lemma_live_entries_shape(s.drop_last(), now, retention);
        let sub = live_entries(s.drop_last(), now, retention);
        let f = live_entries(s, now, retention);
        assert forall|k: int| 0 <= k < f.len() implies !expired(#[trigger] f[k], now, retention)
            && s.contains(f[k]) by {
            if !expired(s.last(), now, retention) && k == f.len() - 1 {
                assert(f[k] == s.last());
                assert(s[s.len() - 1] == s.last());
            } else {
                assert(f[k] == sub[k]);
                assert(!expired(sub[k], now, retention) && s.drop_last().contains(sub[k]));
                let j = choose|j: int| 0 <= j < s.drop_last().len() && s.drop_last()[j] == sub[k];
                assert(s[j] == sub[k]);
            }
        }
        if ids_unique(s) {
            assert(ids_unique(s.drop_last())) by {
                assert forall|a: int, b: int|
                    0 <= a < b < s.drop_last().len() implies s.drop_last()[a].id
                    != s.drop_last()[b].id by {
                    assert(s[a].id != s[b].id);
                }
            }
            if !expired(s.last(), now, retention) {
                assert forall|a: int, b: int| 0 <= a < b < f.len() implies f[a].id != f[b].id by {
                    if b < f.len() - 1 {
                        assert(f[a] == sub[a] && f[b] == sub[b]);
                    } else {
                        assert(f[a] == sub[a] && f[b] == s.last());
                        assert(!expired(sub[a], now, retention) && s.drop_last().contains(sub[a]));
                        let j = choose|j: int|
                            0 <= j < s.drop_last().len() && s.drop_last()[j] == sub[a];
                        assert(s[j] == sub[a]);
                        assert(s[j].id != s[s.len() - 1].id);
                    }
                }
            }
        }
    }
}

/// The given entries reordered so the newest come first.
fn sort_entries_desc(v: Vec<ClipboardData>) -> (r: Vec<ClipboardData>)
    ensures
        r@.to_multiset() == v@.to_multiset(),
        newest_first(r@),
        r@.len() == v@.len(),
{
    let mut rest = v;
    let mut out: Vec<ClipboardData> = Vec::new();
    proof {
        assert(out@.to_multiset().add(rest@.to_multiset()) =~= rest@.to_multiset());
    }
    while rest.len() > 0
        invariant
            out@.to_multiset().add(rest@.to_multiset()) == v@.to_multiset(),
            out@.len() + rest@.len() == v@.len(),
            newest_first(out@),
            forall|a: int, b: int|
                0 <= a < out@.len() && 0 <= b < rest@.len() ==> out@[a].received_at
                    >= rest@[b].received_at,
        decreases rest@.len(),
    {
        let mut m: usize = 0;
        let mut k: usize = 1;
        while k < rest.len()
            invariant
                rest@.len() > 0,
                m < k,
                k <= rest@.len(),
                forall|j: int| 0 <= j < k ==> rest@[j].received_at <= rest@[m as int].received_at,
            decreases rest@.len() - k,
        {
            if rest[k].received_at > rest[m].received_at {
                m = k;
            }
            k += 1;
        }
        let ghost pre_out = out@;
        let ghost pre_rest = rest@;
        let e = rest.remove(m);
        out.push(e);
        proof {
            assert(pre_rest.to_multiset().count(e) > 0) by {
                assert(pre_rest[m as int] == e);
                assert(pre_rest.contains(e));
            }
            assert(out@.to_multiset() =~= pre_out.to_multiset().insert(e));
            assert(rest@.to_multiset() =~= pre_rest.to_multiset().remove(e));
            assert(out@.to_multiset().add(rest@.to_multiset()) =~= pre_out.to_multiset().add(
                pre_rest.to_multiset(),
            ));
        }
    }
    proof {
        assert(rest@.to_multiset() =~= Multiset::<ClipboardData>::empty()) by {
            assert forall|x: ClipboardData| rest@.to_multiset().count(x) == 0 by {
                if rest@.to_multiset().count(x) > 0 {
                    assert(rest@.contains(x));
                }
            }
        }
        assert(out@.to_multiset() =~= v@.to_multiset());
    }
    out
}

/// Law: after an entry is stored, looking its id up finds exactly the stored
/// value — equal to the input except `received_at` carries the instant of the
/// write and an unset `sent_at` defaults to it — and ids stay distinct.
pub proof fn lemma_save_then_get(s: Seq<ClipboardData>, data: ClipboardData, now: u64)
    requires
        ids_unique(s),
    ensures
        ids_unique(upsert(s, stamped(data, now))),
        has_id(upsert(s, stamped(data, now)), data.id),
        entry_of_id(upsert(s, stamped(data, now)), data.id) == stamped(data, now),
{
    let e = stamped(data, now);
    let s2 = upsert(s, e);
    if has_id(s, e.id) {
        let i = index_of_id(s, e.id);
        assert(0 <= i < s.len() && s[i].id == e.id);
        assert forall|a: int, b: int| 0 <= a < b < s2.len() implies s2[a].id != s2[b].id by {
            assert(s2[a].id == s[a].id && s2[b].id == s[b].id);
        }
        assert(s2[i].id == data.id);
        assert(has_id(s2, data.id));
        let j = index_of_id(s2, data.id);
        assert(0 <= j < s2.len() && s2[j].id == data.id);
        assert(j == i);
    } else {
        assert forall|a: int, b: int| 0 <= a < b < s2.len() implies s2[a].id != s2[b].id by {
            if b < s2.len() - 1 {
                assert(s2[a].id == s[a].id && s2[b].id == s[b].id);
            } else {
                assert(s2[b] == e);
                assert(s2[a].id == s[a].id);
                assert(!(exists|i: int| 0 <= i < s.len() && s[i].id == e.id));
            }
        }
        assert(s2[s2.len() - 1].id == data.id);
        assert(has_id(s2, data.id));
        let j = index_of_id(s2, data.id);
        assert(0 <= j < s2.len() && s2[j].id == data.id);
        assert(j == s2.len() - 1);
    }
}

/// Law: every entry a user's listing draws from stands in the store and
/// belongs to that user — so an id absent from the store never appears in a
/// listing.
pub proof fn lemma_user_entries_members(s: Seq<ClipboardData>, user_id: u128)
    ensures
        forall|k: int|
            0 <= k < user_entries(s, user_id).len() ==> s.contains(
                #[trigger] user_entries(s, user_id)[k],
            ) && user_entries(s, user_id)[k].user_id == user_id,
    decreases s.len(),
{
    if s.len() > 0 {
        lemma_user_entries_members(s.drop_last(), user_id);
        let sub = user_entries(s.drop_last(), user_id);
        let f = user_entries(s, user_id);
        assert forall|k: int| 0 <= k < f.len() implies s.contains(#[trigger] f[k]) && f[k].user_id
            == user_id by {
            if s.last().user_id == user_id && k == f.len() - 1 {
                assert(f[k] == s.last());
                assert(s[s.len() - 1] == s.last());
            } else {
                assert(f[k] == sub[k]);
                assert(s.drop_last().contains(sub[k]) && sub[k].user_id == user_id);
                let j = choose|j: int| 0 <= j < s.drop_last().len() && s.drop_last()[j] == sub[k];
                assert(s[j] == sub[k]);
            }
        }
    }
}

/// Law: after an eviction pass at `now`, an entry whose age had reached the
/// retention period appears in no user listing: nothing drawn from the
/// surviving store carries its id.
pub proof fn lemma_evicted_absent_from_listings(
    s: Seq<ClipboardData>,
    now: u64,
    retention: u64,
    id: u128,
    user_id: u128,
)
    requires
        ids_unique(s),
        has_id(s, id),
        expired(entry_of_id(s, id), now, retention),
    ensures
        forall|k: int|
            0 <= k < user_entries(live_entries(s, now, retention), user_id).len() ==> (
            #[trigger] user_entries(live_entries(s, now, retention), user_id)[k]).id != id,
{
    lemma_evicted_unreachable(s, now, retention, id);
    let live = live_entries(s, now, retention);
    lemma_user_entries_members(live, user_id);
    let listed = user_entries(live, user_id);
    assert forall|k: int| 0 <= k < listed.len() implies (#[trigger] listed[k]).id != id by {
        if listed[k].id == id {
            assert(live.contains(listed[k]));
            let j = choose|j: int| 0 <= j < live.len() && live[j] == listed[k];
            assert(live[j].id == id);
            assert(has_id(live, id));
        }
    }
}

/// Law: an entry whose age at `now` has reached the retention period is gone
/// after an eviction pass at `now`: its id is no longer found, so neither a
/// lookup nor a listing can return it.
pub proof fn lemma_evicted_unreachable(s: Seq<ClipboardData>, now: u64, retention: u64, id: u128)
    requires
        ids_unique(s),
        has_id(s, id),
        expired(entry_of_id(s, id), now, retention),
    ensures
        !has_id(live_entries(s, now, retention), id),
{
    lemma_live_entries_shape(s, now, retention);
    let f = live_entries(s, now, retention);
    let i = index_of_id(s, id);
    assert(0 <= i < s.len() && s[i].id == id);
    if has_id(f, id) {
        let k = index_of_id(f, id);
        assert(0 <= k < f.len() && f[k].id == id);
        assert(s.contains(f[k]));
        let j = choose|j: int| 0 <= j < s.len() && s[j] == f[k];
        assert(s[j].id == id);
        assert(j == i);
        assert(!expired(f[k], now, retention));
    }
}

} // verus!
