use vstd::prelude::*;

use crate::builder::{failure_of, failure_record, Builder, FailedModel, Stage, Status};
use crate::cratesio::{Error, Metadata};
use crate::store::StoredCrate;
use crate::workspace::pair_of;

verus! {

/// How long a failure is remembered, in seconds: one day.
pub const FAILURE_TTL: u64 = 86400;

/// How long catalogue metadata is kept, in seconds.
pub const METADATA_TTL: u64 = 300;

/// A value kept under a key until an optional expiry time.
pub struct Entry<V> {
    pub key: String,
    pub value: V,
    pub expires_at: Option<u64>,
}

/// A key-value store whose entries may expire. Of the entries for a key the
/// last one counts; setting a key drops the earlier ones.
pub struct TtlStore<V> {
    pub entries: Vec<Entry<V>>,
}

/// `now + ttl`, or the largest time where that does not fit.
pub open spec fn expiry(now: u64, ttl: u64) -> u64 {
    if now + ttl > u64::MAX {
        u64::MAX
    } else {
        (now + ttl) as u64
    }
}

/// Whether an entry with this expiry is still there at `now`.
pub open spec fn is_live(expires_at: Option<u64>, now: u64) -> bool {
    match expires_at {
        None => true,
        Some(t) => now < t,
    }
}

/// For each key, the value and expiry of its last entry.
pub open spec fn store_map<V: View>(s: Seq<Entry<V>>) -> Map<Seq<char>, (V::V, Option<u64>)>
    decreases s.len(),
{
    if s.len() == 0 {
        Map::empty()
    } else {
        store_map(s.drop_last()).insert(s.last().key@, (s.last().value@, s.last().expires_at))
    }
}

/// Entries after position `i` do not change what is stored under a key that
/// none of them holds.
proof fn lemma_later_entries_other_keys<V: View>(s: Seq<Entry<V>>, i: int, k: Seq<char>)
    requires
        0 <= i <= s.len(),
        forall|j: int| i <= j < s.len() ==> s[j].key@ != k,
    ensures
        store_map(s).contains_key(k) == store_map(s.subrange(0, i)).contains_key(k),
        store_map(s).contains_key(k) ==> store_map(s)[k] == store_map(s.subrange(0, i))[k],
    decreases s.len(),
{
    if s.len() == i {
        assert(s.subrange(0, i) =~= s);
    } else {
        lemma_later_entries_other_keys(s.drop_last(), i, k);
        assert(s.drop_last().subrange(0, i) =~= s.subrange(0, i));
    }
}

/// The last entry holding a key gives what is stored under it.
proof fn lemma_last_entry_wins<V: View>(s: Seq<Entry<V>>, i: int, k: Seq<char>)
    requires
        0 <= i < s.len(),
        s[i].key@ == k,
        forall|j: int| i < j < s.len() ==> s[j].key@ != k,
    ensures
        store_map(s).contains_key(k),
        store_map(s)[k] == (s[i].value@, s[i].expires_at),
{
    lemma_later_entries_other_keys(s, i + 1, k);
    assert(s.subrange(0, i + 1).drop_last() =~= s.subrange(0, i));
}

/// Dropping an entry for `k` leaves what is stored under every other key.
proof fn lemma_drop_entry_of_key<V: View>(s: Seq<Entry<V>>, j: int, k: Seq<char>)
    requires
        0 <= j < s.len(),
        s[j].key@ == k,
    ensures
        store_map(s.remove(j)).remove(k) =~= store_map(s).remove(k),
    decreases s.len(),
{
    let t = s.remove(j);
    let last = s.last();
    assert(store_map(s) == store_map(s.drop_last()).insert(last.key@, (last.value@, last.expires_at)));
    if j == s.len() - 1 {
        assert(t =~= s.drop_last());
    } else {
        lemma_drop_entry_of_key(s.drop_last(), j, k);
        assert(t.drop_last() =~= s.drop_last().remove(j));
        assert(t.last() == last);
        assert(store_map(t) == store_map(t.drop_last()).insert(last.key@, (last.value@, last.expires_at)));
        let a = store_map(t.drop_last());
        let b = store_map(s.drop_last());
        assert(a.remove(k) =~= b.remove(k));
        if last.key@ == k {
            assert(store_map(t).remove(k) =~= a.remove(k));
            assert(store_map(s).remove(k) =~= b.remove(k));
        } else {
            assert(store_map(t).remove(k) =~= a.remove(k).insert(last.key@, (last.value@, last.expires_at)));
            assert(store_map(s).remove(k) =~= b.remove(k).insert(last.key@, (last.value@, last.expires_at)));
        }
    }
}

impl<V: View> TtlStore<V> {
    pub open spec fn view(&self) -> Map<Seq<char>, (V::V, Option<u64>)> {
        store_map(self.entries@)
    }

    /// What is stored under `key` at time `now`, if it has not expired.
    pub open spec fn live(&self, key: Seq<char>, now: u64) -> Option<V::V> {
        if self@.contains_key(key) && is_live(self@[key].1, now) {
            Some(self@[key].0)
        } else {
            None
        }
    }

    pub fn new() -> (r: TtlStore<V>)
        ensures
            r@ == Map::<Seq<char>, (V::V, Option<u64>)>::empty(),
    {
        TtlStore { entries: Vec::new() }
    }

    /// Stores `value` under `key` until `expires_at` (for good if none).
    pub fn set(&mut self, key: String, value: V, expires_at: Option<u64>)
        ensures
            final(self)@ == old(self)@.insert(key@, (value@, expires_at)),
    {
        let ghost k = key@;
        let mut i: usize = self.entries.len();
        while i > 0
            invariant
                i <= self.entries@.len(),
                k == key@,
                store_map(self.entries@).remove(k) =~= store_map(old(self).entries@).remove(k),
            decreases i,
        {
            i = i - 1;
            if self.entries[i].key == key {
                proof {
                    lemma_drop_entry_of_key(self.entries@, i as int, k);
                }
                self.entries.remove(i);
            }
        }
        let ghost kept = self.entries@;
        self.entries.push(Entry { key, value, expires_at });
        assert(self.entries@.drop_last() =~= kept);
        assert(store_map(self.entries@) =~= store_map(kept).remove(k).insert(k, (value@, expires_at)));
        assert(store_map(self.entries@) =~= old(self)@.insert(k, (value@, expires_at)));
    }

    /// The position of the entry that holds what is live under `key` at `now`.
    pub fn find(&self, key: &str, now: u64) -> (r: Option<usize>)
        ensures
            match r {
                Some(i) => i < self.entries@.len() && self.live(key@, now) == Some(
                    self.entries@[i as int].value@,
                ),
                None => self.live(key@, now) is None,
            },
    {
        let wanted = String::from_str(key);
        let mut i: usize = self.entries.len();
        while i > 0
            invariant
                i <= self.entries@.len(),
                wanted@ == key@,
                forall|j: int| i <= j < self.entries@.len() ==> self.entries@[j].key@ != key@,
            decreases i,
        {
            i = i - 1;
            if self.entries[i].key == wanted {
                proof {
                    lemma_last_entry_wins(self.entries@, i as int, key@);
                }
                let live = match self.entries[i].expires_at {
                    None => true,
                    Some(t) => now < t,
                };
                if live {
                    return Some(i);
                } else {
                    return None;
                }
            }
        }
        proof {
            lemma_later_entries_other_keys(self.entries@, 0, key@);
        }
        None
    }
}

/// What a caller sees of a package.
#[derive(PartialEq, Eq, Structural, Clone, Copy, Debug)]
pub enum CrateStatus {
    /// Its last build failed and the failure is still remembered.
    Failed,
    /// Neither built nor being built.
    Missing,
    /// Being built.
    Downloading,
    /// Built.
    Downloaded,
}

/// The status shown for a package, from whether its artifact is present,
/// whether a build of it is in progress and whether a failure is remembered.
/// Both present and in progress at once is no state of the system.
pub open spec fn status_of(downloaded: bool, downloading: bool, failed: bool) -> CrateStatus {
    if downloading {
        CrateStatus::Downloading
    } else if downloaded {
        CrateStatus::Downloaded
    } else if failed {
        CrateStatus::Failed
    } else {
        CrateStatus::Missing
    }
}

/// Combines the three observations into one status.
pub fn resolve_status(downloaded: bool, downloading: bool, failed: bool) -> (r: CrateStatus)
    requires
        !(downloaded && downloading),
    ensures
        r == status_of(downloaded, downloading, failed),
{
    if downloading {
        CrateStatus::Downloading
    } else if downloaded {
        CrateStatus::Downloaded
    } else if failed {
        CrateStatus::Failed
    } else {
        CrateStatus::Missing
    }
}

impl CrateStatus {
    /// The status as the word callers are shown.
    pub fn as_str(&self) -> (r: &'static str)
        ensures
            r@ == match *self {
                CrateStatus::Failed => "failed"@,
                CrateStatus::Missing => "missing"@,
                CrateStatus::Downloading => "downloading"@,
                CrateStatus::Downloaded => "downloaded"@,
            },
    {
        match self {
            CrateStatus::Failed => "failed",
            CrateStatus::Missing => "missing",
            CrateStatus::Downloading => "downloading",
            CrateStatus::Downloaded => "downloaded",
        }
    }
}

/// The registry: builds in progress, remembered failures and cached
/// catalogue metadata. Times are in seconds.
pub struct Db {
    /// Locations of the packages whose build is under way
    pub builds_in_progress: Vec<StoredCrate>,
    /// Failures, by name-version pair
    pub failures: TtlStore<FailedModel>,
    /// Catalogue metadata, by package name
    pub crates: TtlStore<Metadata>,
}

/// The locations held in a list.
pub open spec fn location_set(s: Seq<StoredCrate>) -> Set<Seq<char>> {
    Set::new(|k: Seq<char>| exists|i: int| 0 <= i < s.len() && s[i]@ == k)
}

/// No location both holds a placed artifact and has a build in progress.
pub open spec fn apart(placed: Set<Seq<char>>, in_progress: Set<Seq<char>>) -> bool {
    placed.disjoint(in_progress)
}

impl Db {
    pub open spec fn in_progress(&self) -> Set<Seq<char>> {
        location_set(self.builds_in_progress@)
    }

    /// The failure remembered for `pair` at `now`.
    pub open spec fn failed_at(&self, pair: Seq<char>, now: u64) -> Option<(i32, Seq<char>)> {
        self.failures.live(pair, now)
    }

    /// The metadata cached for `name` at `now`.
    pub open spec fn cached_crate(&self, name: Seq<char>, now: u64) -> Option<Seq<Seq<char>>> {
        self.crates.live(name, now)
    }

    pub fn new() -> (r: Db)
        ensures
            r.in_progress() == Set::<Seq<char>>::empty(),
            r.failures@ == Map::<Seq<char>, ((i32, Seq<char>), Option<u64>)>::empty(),
            r.crates@ == Map::<Seq<char>, (Seq<Seq<char>>, Option<u64>)>::empty(),
    {
        let r = Db { builds_in_progress: Vec::new(), failures: TtlStore::new(), crates: TtlStore::new() };
        assert(r.in_progress() =~= Set::<Seq<char>>::empty());
        r
    }

    /// Remembers that the build of `krate` (a name-version pair) failed,
    /// for one day from `now`.
    pub fn set_failed(&mut self, krate: &str, failed: FailedModel, now: u64) -> (r: Result<(), Error>)
        ensures
            r is Ok,
            final(self).failures@ == old(self).failures@.insert(
                krate@,
                (failed@, Some(expiry(now, FAILURE_TTL))),
            ),
            final(self).crates == old(self).crates,
            final(self).builds_in_progress == old(self).builds_in_progress,
    {
        let until = now.saturating_add(FAILURE_TTL);
        self.failures.set(String::from_str(krate), failed, Some(until));
        Ok(())
    }

    /// The failure remembered for `krate` (a name-version pair) at `now`.
    pub fn get_failed(&self, krate: &str, now: u64) -> (r: Option<FailedModel>)
        ensures
            match r {
                Some(f) => self.failed_at(krate@, now) == Some(f@),
                None => self.failed_at(krate@, now) is None,
            },
    {
        match self.failures.find(krate, now) {
            Some(i) => Some(self.failures.entries[i].value.duplicate()),
            None => None,
        }
    }

    /// The metadata of `name`: the cached value if there is one at `now`,
    /// without calling `fetch`; otherwise what `fetch` gives, which is cached
    /// on success, for `expire_in` seconds if given. An error is not cached.
    pub fn get_crate<F>(&mut self, name: &str, fetch: F, expire_in: Option<u64>, now: u64) -> (r: Result<Metadata, Error>)
        where
            F: FnOnce() -> Result<Metadata, Error>,
        requires
            fetch.requires(()),
        ensures
            final(self).builds_in_progress == old(self).builds_in_progress,
            final(self).failures == old(self).failures,
            match old(self).cached_crate(name@, now) {
                Some(m) => r is Ok && r->Ok_0@ == m && final(self).crates@ == old(self).crates@,
                None => fetch.ensures((), r) && match r {
                    Ok(m) => final(self).crates@ == old(self).crates@.insert(
                        name@,
                        (m@, match expire_in {
                            Some(t) => Some(expiry(now, t)),
                            None => None,
                        }),
                    ),
                    Err(_) => final(self).crates@ == old(self).crates@,
                },
            },
    {
        match self.crates.find(name, now) {
            Some(i) => Ok(self.crates.entries[i].value.duplicate()),
            None => {
                let fetched = fetch();
                match fetched {
                    Ok(m) => {
                        let until = match expire_in {
                            Some(t) => Some(now.saturating_add(t)),
                            None => None,
                        };
                        self.crates.set(String::from_str(name), m.duplicate(), until);
                        Ok(m)
                    },
                    Err(e) => Err(e),
                }
            },
        }
    }

    /// Whether a build of `krate` is in progress.
    pub fn is_build_in_progress(&self, krate: &StoredCrate) -> (r: bool)
        ensures
            r == self.in_progress().contains(krate@),
    {
        let mut i: usize = 0;
        while i < self.builds_in_progress.len()
            invariant
                i <= self.builds_in_progress@.len(),
                forall|j: int| 0 <= j < i ==> self.builds_in_progress@[j]@ != krate@,
            decreases self.builds_in_progress@.len() - i,
        {
            if self.builds_in_progress[i].0 == krate.0 {
                return true;
            }
            i = i + 1;
        }
        false
    }

    fn add_location(&mut self, krate: &StoredCrate)
        ensures
            final(self).in_progress() == old(self).in_progress().insert(krate@),
            final(self).failures == old(self).failures,
            final(self).crates == old(self).crates,
    {
        if !self.is_build_in_progress(krate) {
            let ghost before = self.builds_in_progress@;
            self.builds_in_progress.push(krate.duplicate());
            assert forall|k: Seq<char>| #[trigger] self.in_progress().contains(k) == old(self).in_progress().insert(krate@).contains(k) by {
                if k == krate@ {
                    assert(self.builds_in_progress@[before.len() as int]@ == k);
                } else if old(self).in_progress().contains(k) {
                    let j = choose|j: int| 0 <= j < before.len() && before[j]@ == k;
                    assert(self.builds_in_progress@[j]@ == k);
                }
            }
        }
        assert(self.in_progress() =~= old(self).in_progress().insert(krate@));
    }

    fn remove_location(&mut self, krate: &StoredCrate)
        ensures
            final(self).in_progress() == old(self).in_progress().remove(krate@),
            final(self).failures == old(self).failures,
            final(self).crates == old(self).crates,
    {
        let ghost before = self.builds_in_progress@;
        let mut kept: Vec<StoredCrate> = Vec::new();
        let mut i: usize = 0;
        while i < self.builds_in_progress.len()
            invariant
                i <= before.len(),
                self.builds_in_progress@ == before,
                forall|k: Seq<char>| #[trigger] location_set(kept@).contains(k) <==> (k != krate@
                    && exists|j: int| 0 <= j < i && before[j]@ == k),
            decreases before.len() - i,
        {
            if self.builds_in_progress[i].0 != krate.0 {
                let ghost old_kept = kept@;
                kept.push(self.builds_in_progress[i].duplicate());
                assert forall|k: Seq<char>| #[trigger] location_set(kept@).contains(k) <==> (k != krate@
                    && exists|j: int| 0 <= j < i + 1 && before[j]@ == k) by {
                    if location_set(kept@).contains(k) {
                        let m = choose|m: int| 0 <= m < kept@.len() && kept@[m]@ == k;
                        if m < old_kept.len() {
                            assert(old_kept[m]@ == k);
                            assert(location_set(old_kept).contains(k));
                        }
                    }
                    if k != krate@ && exists|j: int| 0 <= j < i + 1 && before[j]@ == k {
                        let j = choose|j: int| 0 <= j < i + 1 && before[j]@ == k;
                        if j < i {
                            assert(location_set(old_kept).contains(k));
                            let m = choose|m: int| 0 <= m < old_kept.len() && old_kept[m]@ == k;
                            assert(kept@[m]@ == k);
                        } else {
                            assert(kept@[old_kept.len() as int]@ == k);
                        }
                    }
                }
            } else {
                assert forall|k: Seq<char>| #[trigger] location_set(kept@).contains(k) <==> (k != krate@
                    && exists|j: int| 0 <= j < i + 1 && before[j]@ == k) by {
                    if k != krate@ && exists|j: int| 0 <= j < i + 1 && before[j]@ == k {
                        let j = choose|j: int| 0 <= j < i + 1 && before[j]@ == k;
                        assert(j < i);
                    }
                }
            }
            i = i + 1;
        }
        self.builds_in_progress = kept;
        assert(self.in_progress() =~= old(self).in_progress().remove(krate@));
    }

    /// The status of the package at `krate`, whose failures are kept under
    /// `pair`, given whether its artifact is present.
    pub fn crate_status(&self, krate: &StoredCrate, pair: &str, downloaded: bool, now: u64) -> (r: CrateStatus)
        requires
            !(downloaded && self.in_progress().contains(krate@)),
        ensures
            r == status_of(downloaded, self.in_progress().contains(krate@), self.failed_at(pair@, now) is Some),
    {
        let downloading = self.is_build_in_progress(krate);
        let failed = self.get_failed(pair, now).is_some();
        resolve_status(downloaded, downloading, failed)
    }

    /// A request for the package at `krate`: resolves its status and, when
    /// it is `Missing`, registers its build in the same step, so that of
    /// concurrent requests only one starts a build. The caller that sees
    /// `Missing` starts the build.
    pub fn request_build(&mut self, krate: &StoredCrate, pair: &str, downloaded: bool, now: u64) -> (r: CrateStatus)
        requires
            !(downloaded && old(self).in_progress().contains(krate@)),
        ensures
            r == status_of(
                downloaded,
                old(self).in_progress().contains(krate@),
                old(self).failed_at(pair@, now) is Some,
            ),
            final(self).in_progress() == if r == CrateStatus::Missing {
                old(self).in_progress().insert(krate@)
            } else {
                old(self).in_progress()
            },
            final(self).failures == old(self).failures,
            final(self).crates == old(self).crates,
    {
        let r = self.crate_status(krate, pair, downloaded, now);
        if r == CrateStatus::Missing {
            self.add_location(krate);
        }
        r
    }

    /// Records the outcome of a finished build: a failure is remembered for
    /// one day under the package's name-version pair; either way the build
    /// leaves the set of builds in progress.
    pub fn finish_build(&mut self, builder: &Builder, now: u64)
        requires
            builder.wf(),
            builder.stage == Stage::Done,
        ensures
            !final(self).in_progress().contains(builder.dest@),
            final(self).in_progress() == old(self).in_progress().remove(builder.dest@),
            final(self).failures@ == match builder.status {
                Status::Failed(e) => old(self).failures@.insert(
                    pair_of(builder.temp_crate.name@, builder.temp_crate.version@),
                    (failure_of(e), Some(expiry(now, FAILURE_TTL))),
                ),
                _ => old(self).failures@,
            },
            final(self).crates == old(self).crates,
    {
        if let Status::Failed(e) = &builder.status {
            let pair = builder.temp_crate.pair();
            let _ = self.set_failed(pair.as_str(), failure_record(e), now);
        }
        self.remove_location(&builder.dest);
    }

    /// Registers the build of `builder` as in progress.
    pub fn add_build_in_progress(&mut self, builder: &Builder)
        ensures
            final(self).in_progress() == old(self).in_progress().insert(builder.dest@),
            final(self).failures == old(self).failures,
            final(self).crates == old(self).crates,
    {
        self.add_location(&builder.dest);
    }

    /// Removes the build of `builder` from those in progress.
    pub fn remove_build_in_progress(&mut self, builder: &Builder)
        ensures
            final(self).in_progress() == old(self).in_progress().remove(builder.dest@),
            final(self).failures == old(self).failures,
            final(self).crates == old(self).crates,
    {
        self.remove_location(&builder.dest);
    }
}

/// Single flight: once a request has registered the build of a package that
/// is not present, a second request for it sees `Downloading` and starts
/// nothing, whatever failure is remembered.
pub proof fn lemma_single_flight(first: Db, second: Db, krate: Seq<char>, failed: bool)
    requires
        second.in_progress() == first.in_progress().insert(krate),
    ensures
        status_of(false, second.in_progress().contains(krate), failed) == CrateStatus::Downloading,
{
}

/// A remembered failure is read back as it was written, for as long as it
/// lives: from the time it was written until one day later.
pub proof fn lemma_failure_round_trip(before: Db, after: Db, pair: Seq<char>, failed: (i32, Seq<char>), now: u64, later: u64)
    requires
        after.failures@ == before.failures@.insert(pair, (failed, Some(expiry(now, FAILURE_TTL)))),
        now <= later < expiry(now, FAILURE_TTL),
    ensures
        after.failed_at(pair, later) == Some(failed),
{
}

/// Cache aside: metadata fetched at `now` and kept for `ttl` seconds is found
/// by every lookup before it expires, so no further fetch happens; from its
/// expiry on nothing is found, so the next lookup fetches again.
pub proof fn lemma_fetch_once_per_ttl(
    before: Db,
    after: Db,
    name: Seq<char>,
    fetched: Seq<Seq<char>>,
    ttl: u64,
    now: u64,
    later: u64,
)
    requires
        after.crates@ == before.crates@.insert(name, (fetched, Some(expiry(now, ttl)))),
        now <= later,
    ensures
        later < expiry(now, ttl) ==> after.cached_crate(name, later) == Some(fetched),
        later >= expiry(now, ttl) ==> after.cached_crate(name, later) is None,
{
}

/// No package is ever both downloaded and downloading: registering only
/// packages that are not present keeps placed artifacts and builds in
/// progress apart.
pub proof fn lemma_register_keeps_apart(placed: Set<Seq<char>>, before: Db, after: Db, krate: Seq<char>)
    requires
        apart(placed, before.in_progress()),
        !placed.contains(krate),
        after.in_progress() == before.in_progress().insert(krate),
    ensures
        apart(placed, after.in_progress()),
{
}

/// Placing an artifact as its build leaves the registry keeps placed
/// artifacts and builds in progress apart.
pub proof fn lemma_finish_keeps_apart(placed: Set<Seq<char>>, before: Db, after: Db, krate: Seq<char>)
    requires
        apart(placed, before.in_progress()),
        after.in_progress() == before.in_progress().remove(krate),
    ensures
        apart(placed.insert(krate), after.in_progress()),
{
}

/// While placed artifacts and builds in progress are kept apart, the
/// combination "downloaded and downloading" never arises, so the resolver
/// gives a status for every package the system can show.
pub proof fn lemma_status_total(placed: Set<Seq<char>>, db: Db, krate: Seq<char>)
    requires
        apart(placed, db.in_progress()),
    ensures
        !(placed.contains(krate) && db.in_progress().contains(krate)),
{
    assert(!(placed.contains(krate) && db.in_progress().contains(krate)));
}

} // verus!
