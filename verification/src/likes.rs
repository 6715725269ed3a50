use vstd::prelude::*;

use crate::cache::{cache_key, cache_key_text, CACHE_TTL_SECS};
use crate::cursor::Timestamp;
use crate::error::ApiError;
use crate::ids::{
    extract_user_id, header_chars, parse_content_id, user_id_result, uuid_hyphenated, uuid_length, uuid_parse,
};

verus! {

/// At most this many items may be asked for in one batch.
pub const MAX_BATCH_ITEMS: usize = 100;

/// Body of a like request.
pub struct LikeRequest {
    pub content_type: String,
    pub content_id: String,
}

/// Answer to a like request.
pub struct LikeResponse {
    pub liked: bool,
    pub already_existed: bool,
    pub count: i64,
    pub liked_at: Option<Timestamp>,
}

/// Answer to an unlike request.
pub struct UnlikeResponse {
    pub liked: bool,
    pub was_liked: bool,
    pub count: i64,
}

/// Answer to a like-count request.
pub struct CountResponse {
    pub content_type: String,
    pub content_id: String,
    pub count: i64,
}

/// Body of a batch request.
pub struct BatchCountRequest {
    pub items: Vec<BatchItem>,
}

/// One piece of content named in a batch.
#[derive(Clone)]
pub struct BatchItem {
    pub content_type: String,
    pub content_id: String,
}

/// Answer to a batch count request.
pub struct BatchCountResponse {
    pub results: Vec<BatchCountItem>,
}

/// The like count of one piece of content in a batch.
pub struct BatchCountItem {
    pub content_type: String,
    pub content_id: String,
    pub count: i64,
}

/// Answer to a batch status request.
pub struct BatchStatusResponse {
    pub results: Vec<BatchStatusItem>,
}

/// Whether the user likes one piece of content in a batch, and since when.
pub struct BatchStatusItem {
    pub content_type: String,
    pub content_id: String,
    pub liked: bool,
    pub liked_at: Option<Timestamp>,
}

impl View for BatchItem {
    type V = (Seq<char>, Seq<char>);

    open spec fn view(&self) -> (Seq<char>, Seq<char>) {
        (self.content_type@, self.content_id@)
    }
}

impl View for BatchCountItem {
    type V = (Seq<char>, Seq<char>, i64);

    open spec fn view(&self) -> (Seq<char>, Seq<char>, i64) {
        (self.content_type@, self.content_id@, self.count)
    }
}

impl View for BatchStatusItem {
    type V = (Seq<char>, Seq<char>, Option<Timestamp>);

    open spec fn view(&self) -> (Seq<char>, Seq<char>, Option<Timestamp>) {
        (self.content_type@, self.content_id@, self.liked_at)
    }
}

/// A like or unlike request whose user and content ids were read.
pub struct LikeTarget {
    pub user_id: u128,
    pub content_type: String,
    pub content_id: u128,
    /// Key of the cached count of the content.
    pub cache_key: String,
}

/// What a like or unlike request is answered with before any database
/// work: the user id is read first, then the content id.
pub open spec fn target_result(
    header: Option<Seq<u8>>,
    content_type: Seq<char>,
    content_id: Seq<char>,
) -> Result<(u128, u128), ApiError> {
    match user_id_result(header) {
        Err(e) => Err(e),
        Ok(user) => match uuid_parse(content_id) {
            None => Err(ApiError::InvalidContentId),
            Some(c) => Ok((user, c)),
        },
    }
}

/// The raw header, read as a sequence.
pub open spec fn header_view(header: Option<&[u8]>) -> Option<Seq<u8>> {
    match header {
        Some(b) => Some(b@),
        None => None,
    }
}

/// Reads the user and the content of a like or unlike request.
pub fn prepare_target(user_header: Option<&[u8]>, content_type: &str, content_id: &str) -> (r: Result<LikeTarget, ApiError>)
    ensures
        match target_result(header_view(user_header), content_type@, content_id@) {
            Err(e) => r == Err::<LikeTarget, ApiError>(e),
            Ok((user, c)) => r matches Ok(t) && t.user_id == user && t.content_id == c
                && t.content_type@ == content_type@
                && t.cache_key@ == cache_key_text(content_type@, content_id@),
        },
        forall|u: u128, c: u128| user_header matches Some(b) && #[trigger] uuid_hyphenated(u) == header_chars(b@)
            && #[trigger] uuid_hyphenated(c) == content_id@ ==> (r matches Ok(t) && t.user_id == u && t.content_id == c),
        r is Ok ==> uuid_length(content_id@),
{
    let user_id = match extract_user_id(user_header) {
        Ok(u) => u,
        Err(e) => return Err(e),
    };
    let content_uuid = match parse_content_id(content_id) {
        Ok(c) => c,
        Err(e) => return Err(e),
    };
    Ok(LikeTarget {
        user_id,
        content_type: String::from_str(content_type),
        content_id: content_uuid,
        cache_key: cache_key(content_type, content_id),
    })
}

/// Where a like stands once its insert has run.
pub enum LikeStep {
    /// The insert found the like already there: read when it was made.
    LookUpExisting,
    /// The insert made a new like at this instant.
    Created(Timestamp),
}

/// A like insert that wrote a row returns its time; one that found the row
/// already there returns nothing, and the like's time must be looked up.
pub fn after_insert(inserted_at: Option<Timestamp>) -> (r: LikeStep)
    ensures
        match inserted_at {
            Some(t) => r == LikeStep::Created(t),
            None => r == LikeStep::LookUpExisting,
        },
{
    match inserted_at {
        Some(t) => LikeStep::Created(t),
        None => LikeStep::LookUpExisting,
    }
}

/// A counter change to make in the cache.
pub struct CacheUpdate {
    pub key: String,
}

/// The answer to a like, and the cached counter to increment, if any.
pub struct LikeOutcome {
    pub response: LikeResponse,
    pub cache_increment: Option<CacheUpdate>,
}

/// The count that a database count query answers with (`NULL` counts as 0).
pub open spec fn db_count(count: Option<i64>) -> i64 {
    match count {
        Some(c) => c,
        None => 0,
    }
}

/// Answers a like: it is liked, `already_existed` tells whether the row was
/// there before, and only a new like increments the cached counter of its
/// content (so liking again changes no counter).
pub fn finish_like(target: &LikeTarget, already_existed: bool, liked_at: Timestamp, count: Option<i64>) -> (r: LikeOutcome)
    ensures
        r.response.liked,
        r.response.already_existed == already_existed,
        r.response.count == db_count(count),
        r.response.liked_at == Some(liked_at),
        already_existed ==> r.cache_increment is None,
        !already_existed ==> (r.cache_increment matches Some(u) && u.key@ == target.cache_key@),
{
    let count = match count {
        Some(c) => c,
        None => 0,
    };
    let cache_increment = if !already_existed {
        Some(CacheUpdate { key: target.cache_key.clone() })
    } else {
        None
    };
    LikeOutcome {
        response: LikeResponse { liked: true, already_existed, count, liked_at: Some(liked_at) },
        cache_increment,
    }
}

/// The answer to an unlike, and the cached counter to decrement, if any.
pub struct UnlikeOutcome {
    pub response: UnlikeResponse,
    pub cache_decrement: Option<CacheUpdate>,
}

/// Answers an unlike: it is not liked, `was_liked` tells whether a row was
/// deleted, and only a deleted like decrements the cached counter of its
/// content.
pub fn finish_unlike(target: &LikeTarget, was_liked: bool, count: Option<i64>) -> (r: UnlikeOutcome)
    ensures
        !r.response.liked,
        r.response.was_liked == was_liked,
        r.response.count == db_count(count),
        !was_liked ==> r.cache_decrement is None,
        was_liked ==> (r.cache_decrement matches Some(u) && u.key@ == target.cache_key@),
{
    let count = match count {
        Some(c) => c,
        None => 0,
    };
    let cache_decrement = if was_liked {
        Some(CacheUpdate { key: target.cache_key.clone() })
    } else {
        None
    };
    UnlikeOutcome { response: UnlikeResponse { liked: false, was_liked, count }, cache_decrement }
}

/// A count request whose content id was read.
pub struct CountTarget {
    pub content_type: String,
    pub content_id: String,
    pub content_uuid: u128,
    /// Key of the cached count.
    pub cache_key: String,
}

/// Reads the content of a count request: `INVALID_CONTENT_ID` unless the
/// id is a UUID.
pub fn prepare_count(content_type: &str, content_id: &str) -> (r: Result<CountTarget, ApiError>)
    ensures
        match uuid_parse(content_id@) {
            None => r == Err::<CountTarget, ApiError>(ApiError::InvalidContentId),
            Some(c) => r matches Ok(t) && t.content_uuid == c && t.content_type@ == content_type@
                && t.content_id@ == content_id@
                && t.cache_key@ == cache_key_text(content_type@, content_id@),
        },
        forall|c: u128| #[trigger] uuid_hyphenated(c) == content_id@ ==> (r matches Ok(t) && t.content_uuid == c),
        r is Ok ==> uuid_length(content_id@),
{
    let content_uuid = match parse_content_id(content_id) {
        Ok(c) => c,
        Err(e) => return Err(e),
    };
    Ok(CountTarget {
        content_type: String::from_str(content_type),
        content_id: String::from_str(content_id),
        content_uuid,
        cache_key: cache_key(content_type, content_id),
    })
}

/// A cached count answers the request directly; a miss answers nothing.
pub fn count_from_cache(target: &CountTarget, cached: Option<i64>) -> (r: Option<CountResponse>)
    ensures
        match cached {
            None => r is None,
            Some(c) => r matches Some(resp) && resp.count == c
                && resp.content_type@ == target.content_type@ && resp.content_id@ == target.content_id@,
        },
{
    match cached {
        Some(c) => Some(CountResponse {
            content_type: target.content_type.clone(),
            content_id: target.content_id.clone(),
            count: c,
        }),
        None => None,
    }
}

/// A value to store in the cache for a while.
pub struct CacheWrite {
    pub key: String,
    pub value: i64,
    pub ttl_secs: u64,
}

/// Answers a count request from the database count, and the cache entry
/// that remembers it for five minutes.
pub fn count_from_db(target: &CountTarget, count: Option<i64>) -> (r: (CountResponse, CacheWrite))
    ensures
        r.0.count == db_count(count),
        r.0.content_type@ == target.content_type@,
        r.0.content_id@ == target.content_id@,
        r.1.key@ == target.cache_key@,
        r.1.value == db_count(count),
        r.1.ttl_secs == 300,
{
    let count = match count {
        Some(c) => c,
        None => 0,
    };
    (
        CountResponse {
            content_type: target.content_type.clone(),
            content_id: target.content_id.clone(),
            count,
        },
        CacheWrite { key: target.cache_key.clone(), value: count, ttl_secs: CACHE_TTL_SECS },
    )
}

/// A batch of more than 100 items is refused with `BATCH_TOO_LARGE`.
pub fn check_batch_size(items: &Vec<BatchItem>) -> (r: Result<(), ApiError>)
    ensures
        r is Err <==> items@.len() > 100,
        r is Err ==> r == Err::<(), ApiError>(ApiError::BatchTooLarge),
{
    if items.len() > MAX_BATCH_ITEMS {
        Err(ApiError::BatchTooLarge)
    } else {
        Ok(())
    }
}

/// The cache key of each item of a batch, in order.
pub fn batch_cache_keys(items: &Vec<BatchItem>) -> (r: Vec<String>)
    ensures
        r@.len() == items@.len(),
        forall|i: int| 0 <= i < items@.len()
            ==> #[trigger] r@[i]@ == cache_key_text(items@[i].content_type@, items@[i].content_id@),
{
    let mut keys: Vec<String> = Vec::new();
    let mut i: usize = 0;
    while i < items.len()
        invariant
            i <= items@.len(),
            keys@.len() == i,
            forall|j: int| 0 <= j < i
                ==> #[trigger] keys@[j]@ == cache_key_text(items@[j].content_type@, items@[j].content_id@),
        decreases items@.len() - i,
    {
        let item = &items[i];
        keys.push(cache_key(item.content_type.as_str(), item.content_id.as_str()));
        i = i + 1;
    }
    keys
}

/// The items of a batch whose count the cache held, in order, with that count.
pub open spec fn cached_hits(items: Seq<BatchItem>, cached: Seq<Option<i64>>) -> Seq<(Seq<char>, Seq<char>, i64)>
    decreases cached.len(),
{
    if cached.len() == 0 {
        Seq::empty()
    } else {
        let prev = cached_hits(items, cached.drop_last());
        match cached.last() {
            Some(c) => prev.push((items[cached.len() - 1].content_type@, items[cached.len() - 1].content_id@, c)),
            None => prev,
        }
    }
}

/// The positions of the answered batch items whose count the cache did not hold, in order.
pub open spec fn cached_misses(cached: Seq<Option<i64>>) -> Seq<usize>
    decreases cached.len(),
{
    if cached.len() == 0 {
        Seq::empty()
    } else {
        let prev = cached_misses(cached.drop_last());
        match cached.last() {
            Some(_) => prev,
            None => prev.push((cached.len() - 1) as usize),
        }
    }
}

/// The positions of the batch items still to be counted in the database,
/// in order: those whose answer held no count, then those past the end of
/// the cache's answer, which it did not answer for at all.
pub open spec fn batch_misses(cached: Seq<Option<i64>>, n: int) -> Seq<usize> {
    cached_misses(cached) + Seq::new((n - cached.len()) as nat, |k: int| (cached.len() + k) as usize)
}

/// Sorts the cache's answers for a batch into counts (in order of the
/// items) and the positions still to be counted in the database: each item
/// lands in exactly one of the two.
pub fn split_cached(items: &Vec<BatchItem>, cached: &Vec<Option<i64>>) -> (r: (Vec<BatchCountItem>, Vec<usize>))
    requires
        cached@.len() <= items@.len(),
    ensures
        r.0@.map_values(|x: BatchCountItem| x@) == cached_hits(items@, cached@),
        r.1@ == batch_misses(cached@, items@.len() as int),
{
    let mut results: Vec<BatchCountItem> = Vec::new();
    let mut missing: Vec<usize> = Vec::new();
    let mut i: usize = 0;
    while i < cached.len()
        invariant
            i <= cached@.len(),
            cached@.len() <= items@.len(),
            results@.map_values(|x: BatchCountItem| x@) == cached_hits(items@, cached@.take(i as int)),
            missing@ == cached_misses(cached@.take(i as int)),
        decreases cached@.len() - i,
    {
        let ghost pre = cached@.take(i as int);
        let ghost post = cached@.take(i + 1);
        assert(post.drop_last() =~= pre);
        match cached[i] {
            Some(count) => {
                let item = &items[i];
                results.push(BatchCountItem {
                    content_type: item.content_type.clone(),
                    content_id: item.content_id.clone(),
                    count,
                });
                assert(results@.map_values(|x: BatchCountItem| x@) =~= cached_hits(items@, pre).push(
                    (items@[i as int].content_type@, items@[i as int].content_id@, count),
                ));
            },
            None => {
                missing.push(i);
            },
        }
        i = i + 1;
    }
    assert(cached@.take(cached@.len() as int) =~= cached@);
    let answered = cached.len();
    let ghost answered_misses = missing@;
    let mut j: usize = answered;
    while j < items.len()
        invariant
            answered == cached@.len(),
            answered <= j <= items@.len(),
            missing@ == answered_misses + Seq::new((j - answered) as nat, |k: int| (answered + k) as usize),
        decreases items@.len() - j,
    {
        missing.push(j);
        assert(missing@ =~= answered_misses + Seq::new((j + 1 - answered) as nat, |k: int| (answered + k) as usize));
        j = j + 1;
    }
    (results, missing)
}

/// The count of one batch item, from the database.
pub fn batch_item_from_db(target: &CountTarget, count: Option<i64>) -> (r: BatchCountItem)
    ensures
        r@ == (target.content_type@, target.content_id@, db_count(count)),
{
    let count = match count {
        Some(c) => c,
        None => 0,
    };
    BatchCountItem { content_type: target.content_type.clone(), content_id: target.content_id.clone(), count }
}

/// The counting of a batch: the counts gathered so far, in answer order,
/// and the positions of the items still to be counted in the database.
pub struct BatchCounts {
    results: Vec<BatchCountItem>,
    pending: Vec<usize>,
    next: usize,
    answered: usize,
}

impl View for BatchCounts {
    /// The counts gathered, the positions left for the database, how many
    /// of those are counted, and how many counts came from the cache.
    type V = (Seq<(Seq<char>, Seq<char>, i64)>, Seq<usize>, int, int);

    closed spec fn view(&self) -> (Seq<(Seq<char>, Seq<char>, i64)>, Seq<usize>, int, int) {
        (self.results@.map_values(|x: BatchCountItem| x@), self.pending@, self.next as int, self.answered as int)
    }
}

impl BatchCounts {
    /// Whether the counting fits a batch of `n` items: every pending
    /// position names an item, and the next one to count is among them or
    /// just past them.
    pub open spec fn fits(&self, n: int) -> bool {
        &&& 0 <= self@.2 <= self@.1.len()
        &&& forall|k: int| 0 <= k < self@.1.len() ==> #[trigger] self@.1[k] < n
    }

    /// Whether the counting is that of the batch `items`: it fits the
    /// batch, the cache's counts and the pending positions are as many as
    /// the items, and the counts gathered are the cache's, followed by one
    /// for each pending position counted so far, in order, each naming the
    /// item at that position.
    pub open spec fn tracks(&self, items: Seq<BatchItem>) -> bool {
        &&& self.fits(items.len() as int)
        &&& 0 <= self@.3
        &&& self@.3 + self@.1.len() == items.len()
        &&& self@.0.len() == self@.3 + self@.2
        &&& forall|k: int| 0 <= k < self@.2 ==> {
            let item = items[#[trigger] self@.1[k] as int];
            &&& self@.0[self@.3 + k].0 == item.content_type@
            &&& self@.0[self@.3 + k].1 == item.content_id@
        }
    }

    /// Starts from what the cache answered: the items it held a count for
    /// are counted, in order; all the others, including any it did not
    /// answer for, are left for the database.
    pub fn from_cache(items: &Vec<BatchItem>, cached: &Vec<Option<i64>>) -> (r: BatchCounts)
        requires
            cached@.len() <= items@.len(),
        ensures
            r@ == (
                cached_hits(items@, cached@),
                batch_misses(cached@, items@.len() as int),
                0int,
                cached_hits(items@, cached@).len() as int,
            ),
            r.tracks(items@),
    {
        let (results, pending) = split_cached(items, cached);
        proof {
            assert(items@.len() == items.len());
            crate::laws::lemma_batch_split_partitions(items@, cached@, items@.len() as int);
        }
        let answered = results.len();
        BatchCounts { results, pending, next: 0, answered }
    }

    /// Starts without a cache: every item is left for the database, in order.
    pub fn uncached(items: &Vec<BatchItem>) -> (r: BatchCounts)
        ensures
            r@.0 == Seq::<(Seq<char>, Seq<char>, i64)>::empty(),
            r@.1 == Seq::new(items@.len(), |i: int| i as usize),
            r@.2 == 0,
            r@.3 == 0,
            r.tracks(items@),
    {
        let mut pending: Vec<usize> = Vec::new();
        let mut i: usize = 0;
        while i < items.len()
            invariant
                i <= items@.len(),
                pending@ == Seq::new(i as nat, |j: int| j as usize),
            decreases items@.len() - i,
        {
            pending.push(i);
            proof {
                assert(pending@ =~= Seq::new((i + 1) as nat, |j: int| j as usize));
            }
            i = i + 1;
        }
        let r = BatchCounts { results: Vec::new(), pending, next: 0, answered: 0 };
        assert(r@.0 =~= Seq::<(Seq<char>, Seq<char>, i64)>::empty());
        r
    }

    /// The next item to count in the database, read as a count request
    /// (`INVALID_CONTENT_ID` if its id is not a UUID), or `None` when all
    /// are counted.
    pub fn next_target(&self, items: &Vec<BatchItem>) -> (r: Option<Result<CountTarget, ApiError>>)
        requires
            self.fits(items@.len() as int),
        ensures
            self@.2 == self@.1.len() ==> r is None,
            self@.2 < self@.1.len() ==> {
                let item = items@[self@.1[self@.2] as int];
                &&& r is Some
                &&& match uuid_parse(item.content_id@) {
                    None => r.unwrap() == Err::<CountTarget, ApiError>(ApiError::InvalidContentId),
                    Some(c) => r.unwrap() matches Ok(t) && t.content_uuid == c
                        && t.content_type@ == item.content_type@ && t.content_id@ == item.content_id@
                        && t.cache_key@ == cache_key_text(item.content_type@, item.content_id@),
                }
            },
    {
        if self.next < self.pending.len() {
            let index = self.pending[self.next];
            let item = &items[index];
            Some(prepare_count(item.content_type.as_str(), item.content_id.as_str()))
        } else {
            None
        }
    }

    /// Records the database count of the item [`BatchCounts::next_target`]
    /// read (`target` must name that item): it is answered after those
    /// counted before it, and the cache is to remember it for five minutes.
    pub fn record(&mut self, items: &Vec<BatchItem>, target: &CountTarget, count: Option<i64>) -> (w: CacheWrite)
        requires
            old(self).tracks(items@),
            old(self)@.2 < old(self)@.1.len(),
            target.content_type@ == items@[old(self)@.1[old(self)@.2] as int].content_type@,
            target.content_id@ == items@[old(self)@.1[old(self)@.2] as int].content_id@,
        ensures
            final(self).tracks(items@),
            final(self)@.0 == old(self)@.0.push((target.content_type@, target.content_id@, db_count(count))),
            final(self)@.1 == old(self)@.1,
            final(self)@.2 == old(self)@.2 + 1,
            final(self)@.3 == old(self)@.3,
            w.key@ == target.cache_key@,
            w.value == db_count(count),
            w.ttl_secs == 300,
    {
        let entry = batch_item_from_db(target, count);
        let value = entry.count;
        self.results.push(entry);
        assert(self.pending@.len() == self.pending.len());
        self.next = self.next + 1;
        proof {
            assert(self.results@.map_values(|x: BatchCountItem| x@) =~= old(self)@.0.push(
                (target.content_type@, target.content_id@, db_count(count)),
            ));
        }
        CacheWrite { key: target.cache_key.clone(), value, ttl_secs: CACHE_TTL_SECS }
    }

    /// The answer: every count gathered, in order. Once every pending
    /// position is counted, it holds one count per item of the batch.
    pub fn finish(self) -> (r: BatchCountResponse)
        ensures
            r.results@.map_values(|x: BatchCountItem| x@) == self@.0,
    {
        BatchCountResponse { results: self.results }
    }
}

/// The content ids of a batch, in order, where all are UUIDs.
pub open spec fn batch_ids(items: Seq<BatchItem>) -> Option<Seq<u128>>
    decreases items.len(),
{
    if items.len() == 0 {
        Some(Seq::empty())
    } else {
        match batch_ids(items.drop_last()) {
            None => None,
            Some(prev) => match uuid_parse(items.last().content_id@) {
                None => None,
                Some(v) => Some(prev.push(v)),
            },
        }
    }
}

/// The content ids of a batch, in order; `INVALID_CONTENT_ID` if one is not a UUID.
pub fn collect_content_ids(items: &Vec<BatchItem>) -> (r: Result<Vec<u128>, ApiError>)
    ensures
        match batch_ids(items@) {
            None => r == Err::<Vec<u128>, ApiError>(ApiError::InvalidContentId),
            Some(ids) => r matches Ok(v) && v@ == ids,
        },
{
    let mut ids: Vec<u128> = Vec::new();
    let mut i: usize = 0;
    while i < items.len()
        invariant
            i <= items@.len(),
            batch_ids(items@.take(i as int)) == Some(ids@),
        decreases items@.len() - i,
    {
        let ghost pre = items@.take(i as int);
        let ghost post = items@.take(i + 1);
        assert(post.drop_last() =~= pre);
        let id = match parse_content_id(items[i].content_id.as_str()) {
            Ok(v) => v,
            Err(e) => {
                proof {
                    lemma_batch_ids_prefix_none(items@, i as int + 1);
                }
                return Err(e);
            },
        };
        ids.push(id);
        i = i + 1;
    }
    assert(items@.take(items@.len() as int) =~= items@);
    Ok(ids)
}

/// Once a prefix of the batch holds an id that is not a UUID, so does every longer prefix.
proof fn lemma_batch_ids_prefix_none(items: Seq<BatchItem>, k: int)
    requires
        0 <= k <= items.len(),
        batch_ids(items.take(k)) is None,
    ensures
        batch_ids(items) is None,
    decreases items.len() - k,
{
    if k < items.len() {
        assert(items.take(k + 1).drop_last() =~= items.take(k));
        lemma_batch_ids_prefix_none(items, k + 1);
    } else {
        assert(items.take(k) =~= items);
    }
}

/// The ids of a batch are as many as its items.
proof fn lemma_batch_ids_len(items: Seq<BatchItem>)
    ensures
        batch_ids(items) matches Some(ids) ==> ids.len() == items.len(),
    decreases items.len(),
{
    if items.len() > 0 {
        lemma_batch_ids_len(items.drop_last());
    }
}

/// A like of the user, as the database lists it.
pub struct LikedRow {
    pub content_type: String,
    pub content_id: u128,
    pub liked_at: Timestamp,
}

/// The time of the last listed like of the content, if it is listed.
pub open spec fn last_like(rows: Seq<LikedRow>, content_type: Seq<char>, content_id: u128) -> Option<Timestamp>
    decreases rows.len(),
{
    if rows.len() == 0 {
        None
    } else if rows.last().content_type@ == content_type && rows.last().content_id == content_id {
        Some(rows.last().liked_at)
    } else {
        last_like(rows.drop_last(), content_type, content_id)
    }
}

/// The status of each batch item: liked since the time of its last listed row, or not liked.
pub open spec fn statuses(items: Seq<BatchItem>, ids: Seq<u128>, rows: Seq<LikedRow>) -> Seq<(Seq<char>, Seq<char>, Option<Timestamp>)> {
    Seq::new(items.len(), |i: int| (items[i].content_type@, items[i].content_id@, last_like(rows, items[i].content_type@, ids[i])))
}

fn find_last_like(rows: &Vec<LikedRow>, content_type: &String, content_id: u128) -> (r: Option<Timestamp>)
    ensures
        r == last_like(rows@, content_type@, content_id),
{
    let mut i: usize = rows.len();
    assert(rows@.take(i as int) =~= rows@);
    while i > 0
        invariant
            i <= rows@.len(),
            last_like(rows@, content_type@, content_id) == last_like(rows@.take(i as int), content_type@, content_id),
        decreases i,
    {
        let ghost pre = rows@.take(i as int);
        assert(pre.drop_last() =~= rows@.take(i - 1));
        let row = &rows[i - 1];
        if row.content_id == content_id && row.content_type == *content_type {
            return Some(row.liked_at);
        }
        i = i - 1;
    }
    None
}

/// Answers a batch status request from the user's listed likes: for each
/// item in order, whether the user likes it and since when (when the same
/// content is listed twice, the last row counts). `INVALID_CONTENT_ID` if an
/// item's id is not a UUID.
pub fn build_statuses(items: &Vec<BatchItem>, rows: &Vec<LikedRow>) -> (r: Result<BatchStatusResponse, ApiError>)
    ensures
        match batch_ids(items@) {
            None => r == Err::<BatchStatusResponse, ApiError>(ApiError::InvalidContentId),
            Some(ids) => r matches Ok(resp)
                && resp.results@.map_values(|x: BatchStatusItem| x@) == statuses(items@, ids, rows@)
                && forall|i: int| 0 <= i < resp.results@.len()
                    ==> (#[trigger] resp.results@[i]).liked == resp.results@[i].liked_at is Some,
        },
{
    let ids = match collect_content_ids(items) {
        Ok(v) => v,
        Err(e) => return Err(e),
    };
    proof {
        lemma_batch_ids_len(items@);
    }
    let ghost all = statuses(items@, ids@, rows@);
    let mut results: Vec<BatchStatusItem> = Vec::new();
    let mut i: usize = 0;
    while i < items.len()
        invariant
            i <= items@.len(),
            ids@.len() == items@.len(),
            all == statuses(items@, ids@, rows@),
            results@.len() == i,
            forall|j: int| 0 <= j < i ==> #[trigger] results@[j]@ == all[j],
            forall|j: int| 0 <= j < i ==> (#[trigger] results@[j]).liked == results@[j].liked_at is Some,
        decreases items@.len() - i,
    {
        let item = &items[i];
        let found = find_last_like(rows, &item.content_type, ids[i]);
        let liked = found.is_some();
        results.push(BatchStatusItem {
            content_type: item.content_type.clone(),
            content_id: item.content_id.clone(),
            liked,
            liked_at: found,
        });
        i = i + 1;
    }
    assert(results@.map_values(|x: BatchStatusItem| x@) =~= all);
    Ok(BatchStatusResponse { results })
}

} // verus!
