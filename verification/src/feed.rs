//! The video feed's queues: posts waiting to be shown, a priority queue of
//! posts held back for later, and the decisions about when to fetch more.
//! Posts are named by `u64` handles; the caller keeps the post behind each.
use vstd::prelude::*;
use priority_queue::DoublePriorityQueue;
use std::hash::RandomState;

verus! {

#[verifier::external_type_specification]
#[verifier::external_body]
#[verifier::reject_recursive_types(I)]
#[verifier::reject_recursive_types(P)]
#[verifier::reject_recursive_types(H)]
pub struct ExDoublePriorityQueue<I, P, H>(DoublePriorityQueue<I, P, H>);

/// A post's priority: its fetch batch, then `usize::MAX` minus its position in
/// the batch, so that later batches and earlier positions come first.
pub type Priority = (usize, usize);

/// The priority queue of held-back posts.
pub type PostQueue = DoublePriorityQueue<u64, Priority, RandomState>;

/// Tuple order, as `Ord` for tuples defines it.
pub open spec fn prio_le(a: Priority, b: Priority) -> bool {
    a.0 < b.0 || (a.0 == b.0 && a.1 <= b.1)
}

/// What the priority queue holds: each post handle with its priority.
pub uninterp spec fn queued_posts(q: PostQueue) -> Map<
    u64,
    Priority,
>;

/// No post held.
pub open spec fn no_posts() -> Map<u64, Priority> {
    Map::empty()
}

/// Calls `DoublePriorityQueue::new`: the new queue holds nothing.
#[verifier::external_body]
fn pq_new() -> (r: PostQueue)
    ensures
        queued_posts(r) == no_posts(),
{
    DoublePriorityQueue::new()
}

/// Calls `DoublePriorityQueue::len`: the number of posts held, each post once.
#[verifier::external_body]
fn pq_len(q: &PostQueue) -> (r: usize)
    ensures
        r == queued_posts(*q).dom().len(),
{
    q.len()
}

/// Calls `DoublePriorityQueue::push`: the post is held with the new priority,
/// replacing any priority it had, which is returned.
#[verifier::external_body]
fn pq_push(q: &mut PostQueue, item: u64, priority: Priority) -> (r:
    Option<Priority>)
    ensures
        queued_posts(*final(q)) == queued_posts(*old(q)).insert(item, priority),
        r == (if queued_posts(*old(q)).contains_key(item) {
            Some(queued_posts(*old(q))[item])
        } else {
            None
        }),
{
    q.push(item, priority)
}

/// Calls `DoublePriorityQueue::pop_max`: on an empty queue nothing; else one
/// post whose priority no other held post exceeds, taken out of the queue.
/// Which of several posts with the greatest priority comes out is not stated.
#[verifier::external_body]
fn pq_pop_max(q: &mut PostQueue) -> (r: Option<(u64, Priority)>)
    ensures
        queued_posts(*old(q)).dom().len() == 0 ==> r is None && queued_posts(*final(q))
            == queued_posts(*old(q)),
        r is None ==> queued_posts(*old(q)).dom().len() == 0,
        r matches Some((item, p)) ==> {
            &&& queued_posts(*old(q)).contains_key(item)
            &&& queued_posts(*old(q))[item] == p
            &&& forall|j: u64| #[trigger]
                queued_posts(*old(q)).contains_key(j) ==> prio_le(queued_posts(*old(q))[j], p)
            &&& queued_posts(*final(q)) == queued_posts(*old(q)).remove(item)
        },
{
    q.pop_max()
}

/// How many held-back posts move to the feed at a time.
pub const DRAIN_LIMIT: usize = 30;

/// How many posts of a fetch go straight to the feed.
pub const DIRECT_LIMIT: usize = 50;

/// The feed: posts to show in order, and posts held back by priority.
pub struct FeedQueues {
    video_queue: Vec<u64>,
    held: PostQueue,
    batch_cnt: usize,
}

/// `m` after holding back `posts[from..]`, the post at position `k` with
/// priority `(batch, usize::MAX - k)`.
pub open spec fn hold_back(m: Map<u64, Priority>, posts: Seq<u64>, batch: usize, from: int) -> Map<
    u64,
    Priority,
>
    decreases posts.len() - from,
{
    if from >= posts.len() {
        m
    } else {
        hold_back(
            m.insert(posts[from], (batch, (usize::MAX - from) as usize)),
            posts,
            batch,
            from + 1,
        )
    }
}

impl FeedQueues {
    /// The feed is well formed: finitely many posts are held back.
    pub closed spec fn wf(&self) -> bool {
        queued_posts(self.held).dom().finite()
    }

    /// An empty feed.
    pub fn new() -> (f: FeedQueues)
        ensures
            f.feed().len() == 0,
            f.held() == no_posts(),
            f.batch() == 0,
            f.wf(),
    {
        FeedQueues { video_queue: Vec::new(), held: pq_new(), batch_cnt: 0 }
    }

    /// The posts to show, in order.
    pub closed spec fn feed(&self) -> Seq<u64> {
        self.video_queue@
    }

    /// The held-back posts with their priorities.
    pub closed spec fn held(&self) -> Map<u64, Priority> {
        queued_posts(self.held)
    }

    /// The number of fetches whose surplus has been held back.
    pub closed spec fn batch(&self) -> usize {
        self.batch_cnt
    }

    /// The posts to show, in order.
    pub fn video_queue(&self) -> (r: &Vec<u64>)
        ensures
            r@ == self.feed(),
    {
        &self.video_queue
    }

    /// The number of held-back posts.
    pub fn held_len(&self) -> (r: usize)
        requires
            self.wf(),
        ensures
            self.held().dom().finite(),
            r == self.held().dom().len(),
    {
        pq_len(&self.held)
    }

    /// Whether the feed should fetch more: when fewer posts are held back than
    /// one fetch brings.
    pub fn needs_fetch(&self, fetch_limit: usize) -> (r: bool)
        ensures
            r == (self.held().dom().len() < fetch_limit),
    {
        pq_len(&self.held) < fetch_limit
    }

    /// Moves up to thirty held-back posts to the end of the feed, the post of
    /// greatest priority first.
    pub fn drain_held(&mut self)
        requires
            old(self).wf(),
        ensures
            final(self).wf(),
            final(self).batch() == old(self).batch(),
            final(self).feed().subrange(0, old(self).feed().len() as int)
                == old(self).feed(),
            ({
                let moved = final(self).feed().skip(old(self).feed().len() as int);
                &&& old(self).held().dom().finite()
                &&& moved.len() == if old(self).held().dom().len() < DRAIN_LIMIT {
                    old(self).held().dom().len()
                } else {
                    DRAIN_LIMIT as nat
                }
                &&& moved.no_duplicates()
                &&& forall|k: int| 0 <= k < moved.len() ==> old(self).held().contains_key(#[trigger] moved[k])
                &&& forall|x: u64| #[trigger] final(self).held().contains_key(x) <==> (old(self).held().contains_key(x) && !moved.contains(x))
                &&& forall|x: u64| #[trigger] final(self).held().contains_key(x) ==> final(self).held()[x] == old(self).held()[x]
                &&& forall|k: int, x: u64| 0 <= k < moved.len() && #[trigger] final(self).held().contains_key(x)
                    ==> prio_le(old(self).held()[x], old(self).held()[#[trigger] moved[k]])
                &&& forall|k: int, l: int| 0 <= k < l < moved.len()
                    ==> prio_le(old(self).held()[#[trigger] moved[l]], old(self).held()[#[trigger] moved[k]])
            }),
    {
        let ghost old_held = queued_posts(self.held);
        let ghost old_video = self.video_queue@;
        let ghost mut moved: Seq<u64> = Seq::empty();
        let init_len = pq_len(&self.held);
        let mut cnt: usize = 0;
        while cnt < DRAIN_LIMIT
            invariant
                self.batch_cnt == old(self).batch_cnt,
                old_held == old(self).held(),
                old_video == old(self).feed(),
                cnt <= DRAIN_LIMIT,
                moved.len() == cnt,
                old_held.dom().finite(),
                init_len == old_held.dom().len(),
                self.video_queue@ == old_video + moved,
                queued_posts(self.held).dom().finite(),
                queued_posts(self.held).dom().len() == init_len - cnt,
                moved.no_duplicates(),
                forall|k: int| 0 <= k < moved.len() ==> old_held.contains_key(#[trigger] moved[k]),
                forall|x: u64| #[trigger] queued_posts(self.held).contains_key(x) <==> (old_held.contains_key(x) && !moved.contains(x)),
                forall|x: u64| #[trigger] queued_posts(self.held).contains_key(x) ==> queued_posts(self.held)[x] == old_held[x],
                forall|k: int, x: u64| 0 <= k < moved.len() && #[trigger] queued_posts(self.held).contains_key(x)
                    ==> prio_le(old_held[x], old_held[#[trigger] moved[k]]),
                forall|k: int, l: int| 0 <= k < l < moved.len()
                    ==> prio_le(old_held[#[trigger] moved[l]], old_held[#[trigger] moved[k]]),
            ensures
                moved.len() == if init_len < DRAIN_LIMIT { init_len as nat } else { DRAIN_LIMIT as nat },
                self.video_queue@ == old_video + moved,
                moved.no_duplicates(),
                forall|k: int| 0 <= k < moved.len() ==> old_held.contains_key(#[trigger] moved[k]),
                forall|x: u64| #[trigger] queued_posts(self.held).contains_key(x) <==> (old_held.contains_key(x) && !moved.contains(x)),
                forall|x: u64| #[trigger] queued_posts(self.held).contains_key(x) ==> queued_posts(self.held)[x] == old_held[x],
                forall|k: int, x: u64| 0 <= k < moved.len() && #[trigger] queued_posts(self.held).contains_key(x)
                    ==> prio_le(old_held[x], old_held[#[trigger] moved[k]]),
                forall|k: int, l: int| 0 <= k < l < moved.len()
                    ==> prio_le(old_held[#[trigger] moved[l]], old_held[#[trigger] moved[k]]),
            decreases DRAIN_LIMIT - cnt,
        {
            let ghost before = queued_posts(self.held);
            match pq_pop_max(&mut self.held) {
                None => {
                    break;
                },
                Some((item, p)) => {
                    proof {
                        assert(before.dom().contains(item));
                        assert(before.remove(item).dom() =~= before.dom().remove(item));
                        assert(!moved.contains(item));
                        let new_moved = moved.push(item);
                        assert forall|k: int, l: int| 0 <= k < l < new_moved.len() implies prio_le(
                            old_held[#[trigger] new_moved[l]],
                            old_held[#[trigger] new_moved[k]],
                        ) by {
                            if l == new_moved.len() - 1 {
                                assert(new_moved[l] == item);
                                assert(new_moved[k] == moved[k]);
                                assert(before.contains_key(item));
                            } else {
                                assert(new_moved[l] == moved[l]);
                                assert(new_moved[k] == moved[k]);
                            }
                        }
                        assert forall|x: u64| #[trigger] queued_posts(self.held).contains_key(x)
                            <==> (old_held.contains_key(x) && !new_moved.contains(x)) by {
                            assert(new_moved.contains(x) <==> (moved.contains(x) || x == item)) by {
                                if x == item {
                                    assert(new_moved[moved.len() as int] == item);
                                }
                                if new_moved.contains(x) && x != item {
                                    let k = choose|k: int| 0 <= k < new_moved.len() && new_moved[k] == x;
                                    assert(moved[k] == x);
                                }
                                if moved.contains(x) {
                                    let k = choose|k: int| 0 <= k < moved.len() && moved[k] == x;
                                    assert(new_moved[k] == x);
                                }
                            }
                            assert(queued_posts(self.held).contains_key(x) <==> (before.contains_key(x) && x != item));
                        }
                        assert forall|k: int, x: u64| 0 <= k < new_moved.len() && #[trigger] queued_posts(self.held).contains_key(x)
                            implies prio_le(old_held[x], old_held[#[trigger] new_moved[k]]) by {
                            assert(before.contains_key(x));
                            if k < moved.len() {
                                assert(new_moved[k] == moved[k]);
                            }
                        }
                        assert forall|k: int| 0 <= k < new_moved.len() implies old_held.contains_key(#[trigger] new_moved[k]) by {
                            if k < moved.len() {
                                assert(new_moved[k] == moved[k]);
                            }
                        }
                        moved = new_moved;
                    }
                    self.video_queue.push(item);
                    cnt = cnt + 1;
                },
            }
        }
        assert(self.video_queue@.skip(old_video.len() as int) =~= moved);
        assert(self.video_queue@.subrange(0, old_video.len() as int) =~= old_video);
    }

    /// Takes in the posts of one fetch, in order: the first fifty go to the end
    /// of the feed, and the rest are held back, the post at position `k` with
    /// priority `(batch, usize::MAX - k)`. The batch count then grows by one.
    pub fn enqueue_fetched(&mut self, posts: &Vec<u64>)
        requires
            old(self).wf(),
            old(self).batch() < usize::MAX,
        ensures
            final(self).wf(),
            final(self).batch() == old(self).batch() + 1,
            final(self).feed() == old(self).feed() + posts@.take(
                if posts@.len() < DIRECT_LIMIT { posts@.len() as int } else { DIRECT_LIMIT as int },
            ),
            final(self).held() == hold_back(old(self).held(), posts@, old(self).batch(), DIRECT_LIMIT as int),
    {
        let batch = self.batch_cnt;
        let n = posts.len();
        let ghost old_video = self.video_queue@;
        let ghost old_held = queued_posts(self.held);
        let direct = if n < DIRECT_LIMIT { n } else { DIRECT_LIMIT };
        let mut i: usize = 0;
        while i < direct
            invariant
                n == posts@.len(),
                direct <= n,
                direct == (if n < DIRECT_LIMIT { n } else { DIRECT_LIMIT }),
                i <= direct,
                self.video_queue@ =~= old_video + posts@.take(i as int),
                queued_posts(self.held) == old_held,
            decreases direct - i,
        {
            self.video_queue.push(posts[i]);
            i = i + 1;
        }
        let mut k: usize = direct;
        while k < n
            invariant
                n == posts@.len(),
                direct <= k <= n,
                direct == (if n < DIRECT_LIMIT { n } else { DIRECT_LIMIT }),
                self.video_queue@ =~= old_video + posts@.take(direct as int),
                old_held.dom().finite(),
                queued_posts(self.held).dom().finite(),
                hold_back(queued_posts(self.held), posts@, batch, k as int) == hold_back(old_held, posts@, batch, DIRECT_LIMIT as int),
            decreases n - k,
        {
            pq_push(&mut self.held, posts[k], (batch, usize::MAX - k));
            k = k + 1;
        }
        self.batch_cnt = batch + 1;
    }
}

/// Holding back a fetch's surplus loses no post: afterwards exactly the posts
/// held before and the surplus posts are held, and the posts held before that
/// are not part of the surplus keep their priorities.
pub proof fn lemma_hold_back_keeps_posts(m: Map<u64, Priority>, posts: Seq<u64>, batch: usize, from: int)
    requires
        0 <= from,
    ensures
        forall|x: u64|
            #[trigger] hold_back(m, posts, batch, from).contains_key(x) <==> (m.contains_key(x)
                || exists|k: int| from <= k < posts.len() && posts[k] == x),
        forall|x: u64|
            m.contains_key(x) && !(exists|k: int| from <= k < posts.len() && posts[k] == x)
                ==> #[trigger] hold_back(m, posts, batch, from)[x] == m[x],
    decreases posts.len() - from,
{
    if from < posts.len() {
        let m2 = m.insert(posts[from], (batch, (usize::MAX - from) as usize));
        assert(hold_back(m, posts, batch, from) == hold_back(m2, posts, batch, from + 1));
        lemma_hold_back_keeps_posts(m2, posts, batch, from + 1);
        assert forall|x: u64|
            #[trigger] hold_back(m, posts, batch, from).contains_key(x) <==> (m.contains_key(x)
                || exists|k: int| from <= k < posts.len() && posts[k] == x) by {
            if exists|k: int| from + 1 <= k < posts.len() && posts[k] == x {
                let k = choose|k: int| from + 1 <= k < posts.len() && posts[k] == x;
                assert(from <= k < posts.len() && posts[k] == x);
            }
            if x == posts[from] {
                assert(from <= from < posts.len() && posts[from] == x);
            }
            if exists|k: int| from <= k < posts.len() && posts[k] == x {
                let k = choose|k: int| from <= k < posts.len() && posts[k] == x;
                if k > from {
                    assert(from + 1 <= k < posts.len() && posts[k] == x);
                }
            }
        }
        assert forall|x: u64|
            m.contains_key(x) && !(exists|k: int| from <= k < posts.len() && posts[k] == x)
                implies #[trigger] hold_back(m, posts, batch, from)[x] == m[x] by {
            assert(x != posts[from]) by {
                if x == posts[from] {
                    assert(from <= from < posts.len() && posts[from] == x);
                }
            }
            if exists|k: int| from + 1 <= k < posts.len() && posts[k] == x {
                let k = choose|k: int| from + 1 <= k < posts.len() && posts[k] == x;
                assert(from <= k < posts.len() && posts[k] == x);
            }
        }
    }
}

/// A post of a later batch comes before any post of an earlier one, and within
/// a batch the post fetched first comes first.
pub proof fn lemma_priority_order(b1: usize, k1: usize, b2: usize, k2: usize)
    ensures
        prio_le((b1, (usize::MAX - k1) as usize), (b2, (usize::MAX - k2) as usize)) <==> (b1 < b2
            || (b1 == b2 && k2 <= k1)),
{
}

/// The priority order is total: of any two priorities one is at most the
/// other, so a greatest held-back post always exists.
pub proof fn lemma_priority_total(a: Priority, b: Priority)
    ensures
        prio_le(a, b) || prio_le(b, a),
        prio_le(a, b) && prio_le(b, a) ==> a == b,
{
}

/// Whether the feed should fetch more posts: when at most `threshold` posts
/// are left from position `idx` onward.
pub fn should_fetch_more(queue_len: usize, idx: usize, threshold: usize) -> (r: bool)
    ensures
        r == (if queue_len >= idx { queue_len - idx } else { 0 } <= threshold),
{
    queue_len.saturating_sub(idx) <= threshold
}

/// How far from the current post a post's video is still rendered.
pub const RENDER_WINDOW: usize = 20;

/// Whether the post at `idx` renders its video while `current` is shown.
pub fn show_video(idx: usize, current: usize) -> (r: bool)
    ensures
        r == (if idx >= current { idx - current } else { current - idx } <= RENDER_WINDOW),
{
    let d = if idx >= current { idx - current } else { current - idx };
    d <= RENDER_WINDOW
}

/// Every how many posts the login prompt comes back.
pub const LOGIN_PROMPT_EVERY: usize = 5;

/// Whether the login prompt is shown on the post at `current_idx`: on every
/// fifth post but the first, to visitors who have not signed in and have not
/// dismissed it there.
pub fn show_login_prompt(current_idx: usize, connected: bool, not_dismissed: bool) -> (r: bool)
    ensures
        r == (current_idx != 0 && current_idx % 5 == 0 && !connected && not_dismissed),
{
    current_idx != 0 && current_idx % LOGIN_PROMPT_EVERY == 0 && !connected && not_dismissed
}

/// Whether the prompt is armed again on reaching `current_idx`: on every fifth
/// post.
pub fn login_prompt_armed(current_idx: usize) -> (r: bool)
    ensures
        r == (current_idx % 5 == 0),
{
    current_idx % LOGIN_PROMPT_EVERY == 0
}

/// Whether the referral prompt is shown on the post at `idx`: only on the
/// first post, to visitors who came through a referral link, have not signed
/// in and have not dismissed it.
pub fn show_referral_prompt(has_referrer: bool, idx: usize, connected: bool, not_dismissed: bool) -> (r: bool)
    ensures
        r == (has_referrer && idx == 0 && !connected && not_dismissed),
{
    has_referrer && idx == 0 && !connected && not_dismissed
}

/// How many posts before the current one survive a clean-up of the feed.
pub const KEEP_BEHIND: usize = 6;

/// Opens the feed on `initial`: a feed with more than one post drops all but
/// the six posts before the current one and keeps its place; otherwise the
/// feed becomes just `initial`.
pub fn open_feed_on<T>(queue: &mut Vec<T>, current_idx: &mut usize, initial: T)
    requires
        old(queue)@.len() > 1 && *old(current_idx) >= KEEP_BEHIND ==> *old(current_idx) - KEEP_BEHIND
            <= old(queue)@.len(),
    ensures
        old(queue)@.len() > 1 ==> {
            let rem = if *old(current_idx) >= KEEP_BEHIND { *old(current_idx) - KEEP_BEHIND } else { 0 };
            &&& final(queue)@ == old(queue)@.skip(rem as int)
            &&& *final(current_idx) == *old(current_idx) - rem
        },
        old(queue)@.len() <= 1 ==> final(queue)@ == seq![initial] && *final(current_idx) == *old(current_idx),
{
    if queue.len() > 1 {
        let rem = current_idx.saturating_sub(KEEP_BEHIND);
        let tail = queue.split_off(rem);
        *queue = tail;
        *current_idx = *current_idx - rem;
    } else {
        *queue = vec![initial];
    }
}

/// After the feed is opened on a post, the post that was current is still the
/// current one, and no more than six posts come before it.
pub proof fn lemma_open_feed_keeps_current<T>(queue: Seq<T>, current_idx: usize)
    requires
        queue.len() > 1,
        current_idx < queue.len(),
    ensures
        ({
            let rem = if current_idx >= KEEP_BEHIND { current_idx - KEEP_BEHIND } else { 0 };
            &&& queue.skip(rem as int)[current_idx - rem] == queue[current_idx as int]
            &&& current_idx - rem <= KEEP_BEHIND
        }),
{
}

/// Whether the onboarding popup is shown: the post allows a bet and the
/// player has not been onboarded.
pub fn show_onboarding(can_place_bet: bool, onboarded: bool) -> (r: bool)
    ensures
        r == (can_place_bet && !onboarded),
{
    can_place_bet && !onboarded
}

/// Whether the video of the post at `idx` plays: only the current post's does;
/// the others are paused.
pub fn plays_video(idx: usize, current: usize) -> (r: bool)
    ensures
        r == (idx == current),
{
    idx == current
}

/// Which feed a page of posts came from.
#[derive(Clone, Copy, Debug, PartialEq, Eq, Structural)]
pub enum FeedResultType {
    PostCache,
    MLFeedCache,
    MLFeed,
    MLFeedColdstart,
}

/// Whether the fetch cursor moves on after a page: after every feed but the
/// personalised one, which keeps no cursor.
pub fn advances_cursor(res_type: FeedResultType) -> (r: bool)
    ensures
        r == (res_type != FeedResultType::MLFeed),
{
    match res_type {
        FeedResultType::MLFeed => false,
        _ => true,
    }
}

/// Whether posts not safe for work are fetched: when the viewer allows them
/// or the site shows them.
pub fn allows_nsfw(allow_nsfw: bool, show_nsfw_content: bool) -> (r: bool)
    ensures
        r == (allow_nsfw || show_nsfw_content),
{
    allow_nsfw || show_nsfw_content
}

/// Why the post cache sent no posts.
#[derive(Clone, Copy, Debug, PartialEq, Eq, Structural)]
pub enum TopPostsError {
    /// The cursor is past the last post.
    ReachedEndOfItemsList,
    /// Any other refusal.
    Other,
}

/// A page from the post cache: the posts and whether the feed has ended (the
/// page is short, or the cursor was past the end); any other refusal is the
/// error "canister refused to send posts".
pub fn post_cache_page<T>(res: Result<Vec<T>, TopPostsError>, limit: u64) -> (r: Result<
    (Vec<T>, bool),
    String,
>)
    ensures
        match res {
            Ok(posts) => r matches Ok((p, end)) && p@ == posts@ && end == (posts@.len() < limit),
            Err(TopPostsError::ReachedEndOfItemsList) => r matches Ok((p, end)) && p@.len() == 0 && end,
            Err(TopPostsError::Other) => r matches Err(e) && e@ == "canister refused to send posts"@,
        },
{
    match res {
        Ok(posts) => {
            let end = page_is_last(posts.len(), limit);
            Ok((posts, end))
        },
        Err(TopPostsError::ReachedEndOfItemsList) => Ok((Vec::new(), true)),
        Err(TopPostsError::Other) => Err(crate::upload::owned("canister refused to send posts")),
    }
}

/// The fetched post details that name a post: a post found gone (`Ok(None)`)
/// is dropped; errors stay, in order.
pub open spec fn present_results<T, E>(s: Seq<Result<Option<T>, E>>) -> Seq<Result<T, E>>
    decreases s.len(),
{
    if s.len() == 0 {
        Seq::empty()
    } else {
        let init = present_results(s.drop_last());
        match s.last() {
            Ok(Some(t)) => init.push(Ok(t)),
            Ok(None) => init,
            Err(e) => init.push(Err(e)),
        }
    }
}

/// The chunks laid end to end.
pub open spec fn flatten_chunks<X>(c: Seq<Seq<X>>) -> Seq<X>
    decreases c.len(),
{
    if c.len() == 0 {
        Seq::empty()
    } else {
        flatten_chunks(c.drop_last()) + c.last()
    }
}

/// The views of a list of vectors.
pub open spec fn chunk_views<X>(c: Seq<Vec<X>>) -> Seq<Seq<X>> {
    c.map_values(|v: Vec<X>| v@)
}

/// The fetched post details in chunks of `chunk_size`, posts found gone left
/// out: every chunk but the last holds exactly `chunk_size` results, and no
/// chunk is empty.
pub fn chunk_posts<T, E>(results: Vec<Result<Option<T>, E>>, chunk_size: usize) -> (r: Vec<
    Vec<Result<T, E>>,
>)
    requires
        chunk_size > 0,
    ensures
        flatten_chunks(chunk_views(r@)) == present_results(results@),
        forall|i: int| 0 <= i < r@.len() ==> 0 < (#[trigger] r@[i])@.len() <= chunk_size,
        forall|i: int| 0 <= i < r@.len() - 1 ==> (#[trigger] r@[i])@.len() == chunk_size,
{
    let ghost input = results@;
    let mut rest = results;
    let total: usize = rest.len();
    let mut chunks: Vec<Vec<Result<T, E>>> = Vec::new();
    let mut cur: Vec<Result<T, E>> = Vec::new();
    let mut taken: usize = 0;
    while rest.len() > 0
        invariant
            chunk_size > 0,
            input.len() == total,
            taken + rest@.len() == input.len(),
            rest@ == input.skip(taken as int),
            flatten_chunks(chunk_views(chunks@)) + cur@ == present_results(input.take(taken as int)),
            cur@.len() < chunk_size,
            forall|i: int| 0 <= i < chunks@.len() ==> (#[trigger] chunks@[i])@.len() == chunk_size,
        decreases rest@.len(),
    {
        let item = rest.remove(0);
        proof {
            assert(item == input[taken as int]);
            assert(input.take(taken + 1).drop_last() =~= input.take(taken as int));
            assert(input.take(taken + 1).last() == item);
        }
        match item {
            Ok(Some(t)) => {
                cur.push(Ok(t));
            },
            Ok(None) => {},
            Err(e) => {
                cur.push(Err(e));
            },
        }
        assert(flatten_chunks(chunk_views(chunks@)) + cur@ =~= present_results(input.take(taken + 1)));
        if cur.len() == chunk_size {
            let full = cur;
            cur = Vec::new();
            let ghost old_chunks = chunks@;
            chunks.push(full);
            proof {
                assert(chunk_views(chunks@) =~= chunk_views(old_chunks).push(full@));
                assert(chunk_views(chunks@).drop_last() =~= chunk_views(old_chunks));
                assert(flatten_chunks(chunk_views(chunks@)) + cur@ =~= flatten_chunks(
                    chunk_views(old_chunks),
                ) + full@);
            }
        }
        taken = taken + 1;
        assert(rest@ =~= input.skip(taken as int));
    }
    assert(input.take(taken as int) =~= input);
    if cur.len() > 0 {
        let ghost old_chunks = chunks@;
        let last = cur;
        chunks.push(last);
        proof {
            assert(chunk_views(chunks@) =~= chunk_views(old_chunks).push(last@));
            assert(chunk_views(chunks@).drop_last() =~= chunk_views(old_chunks));
        }
    } else {
        assert(cur@ =~= Seq::<Result<T, E>>::empty());
        assert(flatten_chunks(chunk_views(chunks@)) + cur@ =~= flatten_chunks(chunk_views(chunks@)));
    }
    chunks
}

/// Whether the feed resumes where it was rather than starting over: when
/// posts after the first were already fetched or the feed had ended.
pub fn resumes_feed(cursor_start: u64, queue_end: bool) -> (r: bool)
    ensures
        r == (cursor_start > 1 || queue_end),
{
    cursor_start > 1 || queue_end
}

/// How many posts one round of feed fetching wants before it stops.
pub const FETCH_ROUND_TARGET: usize = 8;

/// Whether a round of fetching stops after `fetched` posts, the last page
/// being the end of the feed when `end` holds.
pub fn fetch_round_done(fetched: usize, end: bool) -> (r: bool)
    ensures
        r == (end || fetched >= 8),
{
    end || fetched >= FETCH_ROUND_TARGET
}

/// Whether a page of posts is the last: it held fewer posts than asked for.
pub fn page_is_last(received: usize, limit: u64) -> (r: bool)
    ensures
        r == (received < limit),
{
    (received as u128) < (limit as u128)
}

/// Where the mixed feed takes its next posts from.
#[derive(Clone, Copy, Debug, PartialEq, Eq, Structural)]
pub enum FeedPlan {
    /// The cached cold-start feed, asking for `limit` posts.
    ColdStartCache { limit: u64 },
    /// The personalised feed.
    Personalised,
}

/// Below this many posts the feed is still cold.
pub const COLD_QUEUE_LEN: usize = 30;

/// The first source the mixed feed tries: the cold-start cache with a limit of
/// thirty while the feed holds fewer than thirty posts, else the personalised
/// feed.
pub fn hybrid_plan(queue_len: usize) -> (r: FeedPlan)
    ensures
        r == (if queue_len < 30 { FeedPlan::ColdStartCache { limit: 30 } } else { FeedPlan::Personalised }),
{
    if queue_len < COLD_QUEUE_LEN {
        FeedPlan::ColdStartCache { limit: 30 }
    } else {
        FeedPlan::Personalised
    }
}

/// Where the mixed feed turns when the personalised feed fails: the
/// cold-start cache with a limit of fifty.
pub fn hybrid_fallback() -> (r: FeedPlan)
    ensures
        r == (FeedPlan::ColdStartCache { limit: 50 }),
{
    FeedPlan::ColdStartCache { limit: 50 }
}

} // verus!
