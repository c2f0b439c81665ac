//! Commit metadata, and the decisions of a revision walk: where it stops.
use vstd::prelude::*;
use crate::meta::CommitIdSet;

verus! {

/// Unix timestamps of the dates that `time::OffsetDateTime` represents: from the start
/// of year -9999 to the end of year 9999.
pub open spec fn timestamp_in_range(seconds: int) -> bool {
    -377_705_116_800 <= seconds <= 253_402_300_799
}

/// Offsets from UTC that `time::UtcOffset` represents: less than 26 hours either way.
pub open spec fn offset_in_range(seconds: int) -> bool {
    -93_599 <= seconds <= 93_599
}

/// Why a commit could not be turned into its metadata.
#[derive(Debug, Clone, Copy, PartialEq, Eq)]
pub enum CommitError {
    /// A signature's instant, or its local date in its own offset, lies outside the
    /// representable dates.
    TimestampOutOfRange,
    /// A signature's offset from UTC is 26 hours or more.
    OffsetOutOfRange,
}

/// A signature time as stored in a commit: Unix seconds and the offset from UTC in
/// seconds.
#[derive(Debug, Clone, Copy, PartialEq, Eq)]
pub struct SignatureTime {
    pub seconds: i64,
    pub offset: i32,
}

/// The fields of a commit as read from the repository.
pub struct RawCommit {
    pub hash: String,
    pub author_name: String,
    pub author_email: String,
    pub author_time: SignatureTime,
    pub committer_name: String,
    pub committer_time: SignatureTime,
    pub summary: String,
    pub body: Option<String>,
}

/// Metadata of one commit. The times are date-times in their own offsets: a
/// signature time that is a representable date both in UTC and in that offset.
pub struct CommitInfo {
    pub hash: String,
    pub author_name: String,
    pub author_email: String,
    pub authored_at: SignatureTime,
    pub committer_name: String,
    pub committed_at: SignatureTime,
    pub summary: String,
    pub body: Option<String>,
}

/// Whether a signature time is a date-time that `time` represents: the instant
/// (`OffsetDateTime::from_unix_timestamp`), the offset (`UtcOffset::from_whole_seconds`)
/// and the local date in that offset (`OffsetDateTime::to_offset`) all in range.
pub open spec fn signature_outcome(t: SignatureTime) -> Result<SignatureTime, CommitError> {
    if !timestamp_in_range(t.seconds as int) {
        Err(CommitError::TimestampOutOfRange)
    } else if !offset_in_range(t.offset as int) {
        Err(CommitError::OffsetOutOfRange)
    } else if !timestamp_in_range(t.seconds + t.offset) {
        Err(CommitError::TimestampOutOfRange)
    } else {
        Ok(t)
    }
}

/// Checks a signature time as a date-time in its own offset. A timestamp outside the
/// representable dates is `TimestampOutOfRange`; else an offset of 26 hours or more
/// is `OffsetOutOfRange`; else a local date outside the representable years is
/// `TimestampOutOfRange`.
pub fn check_signature_time(t: SignatureTime) -> (r: Result<SignatureTime, CommitError>)
    ensures
        r == signature_outcome(t),
{
    if t.seconds < -377_705_116_800 || t.seconds > 253_402_300_799 {
        return Err(CommitError::TimestampOutOfRange);
    }
    if t.offset < -93_599 || t.offset > 93_599 {
        return Err(CommitError::OffsetOutOfRange);
    }
    let local = t.seconds + t.offset as i64;
    if local < -377_705_116_800 || local > 253_402_300_799 {
        return Err(CommitError::TimestampOutOfRange);
    }
    Ok(t)
}

/// A signature time whose instant, offset and local date are all in range.
pub open spec fn time_ok(t: SignatureTime) -> bool {
    signature_outcome(t) is Ok
}

impl CommitInfo {
    /// Converts a commit's fields into its metadata; the texts and times are kept as
    /// they are. The author's time is checked first, then the committer's; the first
    /// failure is the error.
    pub fn from_raw(raw: RawCommit) -> (r: Result<CommitInfo, CommitError>)
        ensures
            r is Ok <==> time_ok(raw.author_time) && time_ok(raw.committer_time),
            r matches Ok(c) ==> {
                &&& c.hash@ == raw.hash@
                &&& c.author_name@ == raw.author_name@
                &&& c.author_email@ == raw.author_email@
                &&& c.authored_at == raw.author_time
                &&& c.committer_name@ == raw.committer_name@
                &&& c.committed_at == raw.committer_time
                &&& c.summary@ == raw.summary@
                &&& c.body == raw.body
            },
            !time_ok(raw.author_time) ==> r == Err::<CommitInfo, CommitError>(
                signature_outcome(raw.author_time)->Err_0,
            ),
            time_ok(raw.author_time) && !time_ok(raw.committer_time) ==> r == Err::<
                CommitInfo,
                CommitError,
            >(signature_outcome(raw.committer_time)->Err_0),
    {
        let authored_at = match check_signature_time(raw.author_time) {
            Ok(t) => t,
            Err(e) => {
                return Err(e);
            },
        };
        let committed_at = match check_signature_time(raw.committer_time) {
            Ok(t) => t,
            Err(e) => {
                return Err(e);
            },
        };
        Ok(
            CommitInfo {
                hash: raw.hash,
                author_name: raw.author_name,
                author_email: raw.author_email,
                authored_at,
                committer_name: raw.committer_name,
                committed_at,
                summary: raw.summary,
                body: raw.body,
            },
        )
    }
}

/// Whether a walk that may collect at most `limit` commits has collected enough.
pub fn limit_reached(limit: Option<usize>, collected: usize) -> (b: bool)
    ensures
        b == (limit matches Some(n) && collected >= n),
{
    match limit {
        Some(n) => collected >= n,
        None => false,
    }
}

/// What a revision walk does with the next commit it visits.
#[derive(Debug, Clone, Copy, PartialEq, Eq)]
pub enum WalkStep {
    /// Collect it and go on.
    Take,
    /// Pass over it and go on: it is excluded, or already collected.
    Skip,
    /// End the walk: the limit is reached.
    Stop,
}

/// The step for commit `id` once the commits `taken` were collected: stop at the
/// limit, pass over an excluded or already collected commit, else take it.
pub open spec fn walk_step(
    limit: Option<usize>,
    excluded: Set<Seq<u8>>,
    taken: Seq<Seq<u8>>,
    id: Seq<u8>,
) -> WalkStep {
    if limit matches Some(n) && taken.len() >= n {
        WalkStep::Stop
    } else if excluded.contains(id) || taken.contains(id) {
        WalkStep::Skip
    } else {
        WalkStep::Take
    }
}

/// The commits a walk collects after visiting `ids`, in order.
pub open spec fn walk_taken(
    ids: Seq<Seq<u8>>,
    limit: Option<usize>,
    excluded: Set<Seq<u8>>,
) -> Seq<Seq<u8>>
    decreases ids.len(),
{
    if ids.len() == 0 {
        Seq::<Seq<u8>>::empty()
    } else {
        let prev = walk_taken(ids.drop_last(), limit, excluded);
        if walk_step(limit, excluded, prev, ids.last()) == WalkStep::Take {
            prev.push(ids.last())
        } else {
            prev
        }
    }
}

/// The visited commits that are not excluded, each at its first visit, in order.
pub open spec fn outside_excluded(ids: Seq<Seq<u8>>, excluded: Set<Seq<u8>>) -> Seq<Seq<u8>>
    decreases ids.len(),
{
    if ids.len() == 0 {
        Seq::<Seq<u8>>::empty()
    } else {
        let prev = outside_excluded(ids.drop_last(), excluded);
        let x = ids.last();
        if excluded.contains(x) || prev.contains(x) {
            prev
        } else {
            prev.push(x)
        }
    }
}

/// The first `limit` items of `s`, or all of them without a limit.
pub open spec fn capped(s: Seq<Seq<u8>>, limit: Option<usize>) -> Seq<Seq<u8>> {
    match limit {
        Some(n) => if s.len() > n {
            s.take(n as int)
        } else {
            s
        },
        None => s,
    }
}

/// A walk over `to` that excludes the commits reachable from `from` (`git log
/// from..to`) collects the visited commits outside the excluded set, each once, in
/// the order first visited, and at most `limit` of them.
pub proof fn lemma_walk_collects_range(
    ids: Seq<Seq<u8>>,
    limit: Option<usize>,
    excluded: Set<Seq<u8>>,
)
    ensures
        walk_taken(ids, limit, excluded) == capped(outside_excluded(ids, excluded), limit),
    decreases ids.len(),
{
    if ids.len() > 0 {
        let prefix = ids.drop_last();
        let x = ids.last();
        lemma_walk_collects_range(prefix, limit, excluded);
        let w = walk_taken(prefix, limit, excluded);
        let p = outside_excluded(prefix, excluded);
        match limit {
            Some(n) => {
                if w.len() >= n {
                    assert(p.len() >= n);
                    let p2 = outside_excluded(ids, excluded);
                    assert(p2 == p || p2 == p.push(x));
                    if p.len() > n {
                        assert(p2.take(n as int) =~= p.take(n as int));
                    } else {
                        assert(p.take(n as int) =~= p);
                        assert(p2.take(n as int) =~= p);
                    }
                } else {
                    assert(w == p);
                }
            },
            None => {},
        }
    }
}

/// The commits collected, without an excluded one, each once, and every visited commit
/// outside the excluded set among them.
pub proof fn lemma_outside_excluded_members(ids: Seq<Seq<u8>>, excluded: Set<Seq<u8>>)
    ensures
        outside_excluded(ids, excluded).no_duplicates(),
        forall|x: Seq<u8>|
            #![trigger outside_excluded(ids, excluded).contains(x)]
            outside_excluded(ids, excluded).contains(x) <==> (ids.contains(x) && !excluded.contains(x)),
    decreases ids.len(),
{
    if ids.len() > 0 {
        let prefix = ids.drop_last();
        lemma_outside_excluded_members(prefix, excluded);
        let p = outside_excluded(prefix, excluded);
        let last = ids.last();
        assert forall|x: Seq<u8>|
            #![trigger outside_excluded(ids, excluded).contains(x)]
            outside_excluded(ids, excluded).contains(x) <==> (ids.contains(x) && !excluded.contains(x)) by {
            if ids.contains(x) && x != last {
                let k = choose|k: int| 0 <= k < ids.len() && ids[k] == x;
                assert(prefix[k] == x);
            }
            if prefix.contains(x) {
                let k = choose|k: int| 0 <= k < prefix.len() && prefix[k] == x;
                assert(ids[k] == x);
            }
            assert(ids[ids.len() - 1] == last);
            if !(excluded.contains(last) || p.contains(last)) {
                assert(p.push(last).contains(x) <==> (p.contains(x) || x == last)) by {
                    if x == last {
                        assert(p.push(last)[p.len() as int] == last);
                    }
                    if p.push(last).contains(x) && x != last {
                        let k = choose|k: int| 0 <= k < p.len() + 1 && p.push(last)[k] == x;
                        assert(p[k] == x);
                    }
                    if p.contains(x) {
                        let k = choose|k: int| 0 <= k < p.len() && p[k] == x;
                        assert(p.push(last)[k] == x);
                    }
                }
            }
        }
        if !(excluded.contains(last) || p.contains(last)) {
            assert forall|i: int, j: int|
                0 <= i < p.push(last).len() && 0 <= j < p.push(last).len() && i != j implies p.push(
                last,
            )[i] != p.push(last)[j] by {
                if i < p.len() && j == p.len() {
                    assert(p.contains(p[i]));
                }
                if j < p.len() && i == p.len() {
                    assert(p.contains(p[j]));
                }
            }
        }
    }
}

/// The decisions of a revision walk that collects at most `limit` commits, passes
/// over excluded commits, and takes each commit once.
pub struct WalkCollector {
    limit: Option<usize>,
    excluded: CommitIdSet,
    taken: CommitIdSet,
}

impl WalkCollector {
    pub closed spec fn wf(&self) -> bool {
        self.excluded.wf() && self.taken.wf()
    }

    pub closed spec fn limit(&self) -> Option<usize> {
        self.limit
    }

    /// The commits passed over.
    pub closed spec fn excluded(&self) -> Set<Seq<u8>> {
        self.excluded.id_set()
    }

    /// The commits taken so far, in order.
    pub closed spec fn taken(&self) -> Seq<Seq<u8>> {
        self.taken.view_ids()
    }

    pub fn new(limit: Option<usize>, excluded: CommitIdSet) -> (c: WalkCollector)
        requires
            excluded.wf(),
        ensures
            c.wf(),
            c.limit() == limit,
            c.excluded() == excluded.id_set(),
            c.taken() == Seq::<Seq<u8>>::empty(),
    {
        WalkCollector { limit, excluded, taken: CommitIdSet::new() }
    }

    /// Whether the limit is reached, so that the walk ends before reading further.
    pub fn is_full(&self) -> (b: bool)
        requires
            self.wf(),
        ensures
            b == (self.limit() matches Some(n) && self.taken().len() >= n),
    {
        limit_reached(self.limit, self.taken.len())
    }

    /// Decides on the next commit of the walk, and records it where it is taken.
    pub fn step(&mut self, id: &[u8]) -> (s: WalkStep)
        requires
            old(self).wf(),
        ensures
            final(self).wf(),
            s == walk_step(old(self).limit(), old(self).excluded(), old(self).taken(), id@),
            final(self).taken() == (if s == WalkStep::Take {
                old(self).taken().push(id@)
            } else {
                old(self).taken()
            }),
            final(self).limit() == old(self).limit(),
            final(self).excluded() == old(self).excluded(),
    {
        if limit_reached(self.limit, self.taken.len()) {
            return WalkStep::Stop;
        }
        if self.excluded.contains(id) || self.taken.contains(id) {
            return WalkStep::Skip;
        }
        self.taken.insert(id);
        WalkStep::Take
    }

    /// How many commits were taken so far.
    pub fn collected_count(&self) -> (n: usize)
        requires
            self.wf(),
        ensures
            n == self.taken().len(),
    {
        self.taken.len()
    }
}

} // verus!
