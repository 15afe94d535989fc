use page::feed::{
    advances_cursor, allows_nsfw, chunk_posts, post_cache_page, FeedResultType, TopPostsError,
    fetch_round_done, hybrid_fallback, hybrid_plan, login_prompt_armed, open_feed_on,
    page_is_last, plays_video, resumes_feed, should_fetch_more, show_login_prompt,
    show_onboarding, show_referral_prompt, show_video, FeedPlan, FeedQueues,
};

#[test]
fn new_feed_is_empty() {
    let f = FeedQueues::new();
    assert!(f.video_queue().is_empty());
    assert_eq!(f.held_len(), 0);
    assert!(f.needs_fetch(1));
    assert!(!f.needs_fetch(0));
}

#[test]
fn small_fetch_goes_straight_to_the_feed() {
    let mut f = FeedQueues::new();
    f.enqueue_fetched(&vec![5, 6, 7]);
    assert_eq!(f.video_queue(), &vec![5, 6, 7]);
    assert_eq!(f.held_len(), 0);
}

#[test]
fn surplus_is_held_and_drained_in_fetch_order() {
    let mut f = FeedQueues::new();
    let posts: Vec<u64> = (100..155).collect();
    f.enqueue_fetched(&posts);
    assert_eq!(f.video_queue().len(), 50);
    assert_eq!(f.video_queue()[..], posts[..50]);
    assert_eq!(f.held_len(), 5);
    f.drain_held();
    assert_eq!(f.held_len(), 0);
    assert_eq!(f.video_queue()[50..], posts[50..]);
}

#[test]
fn later_batch_drains_first_and_drain_is_capped() {
    let mut f = FeedQueues::new();
    let first: Vec<u64> = (0..60).collect();
    let second: Vec<u64> = (1000..1090).collect();
    f.enqueue_fetched(&first);
    f.enqueue_fetched(&second);
    assert_eq!(f.held_len(), 10 + 40);
    let before = f.video_queue().len();
    f.drain_held();
    assert_eq!(f.held_len(), 20);
    let moved: Vec<u64> = f.video_queue()[before..].to_vec();
    // thirty moved: all from the later batch, in the order they were fetched
    assert_eq!(moved, second[50..80].to_vec());
    let before = f.video_queue().len();
    f.drain_held();
    let moved: Vec<u64> = f.video_queue()[before..].to_vec();
    let mut expected = second[80..].to_vec();
    expected.extend_from_slice(&first[50..]);
    assert_eq!(moved, expected);
    assert_eq!(f.held_len(), 0);
}

#[test]
fn fetch_more_near_the_end() {
    assert!(should_fetch_more(10, 5, 10));
    assert!(!should_fetch_more(30, 5, 10));
}

#[test]
fn video_window() {
    assert!(show_video(20, 0));
    assert!(!show_video(21, 0));
    assert!(show_video(0, 20));
    assert!(!show_video(0, 21));
    assert!(plays_video(4, 4));
    assert!(!plays_video(4, 5));
}

#[test]
fn login_prompt_every_fifth_post() {
    assert!(!show_login_prompt(0, false, true));
    assert!(show_login_prompt(5, false, true));
    assert!(!show_login_prompt(5, true, true));
    assert!(!show_login_prompt(5, false, false));
    assert!(!show_login_prompt(6, false, true));
    assert!(login_prompt_armed(10));
    assert!(!login_prompt_armed(11));
}

#[test]
fn referral_and_onboarding_prompts() {
    assert!(show_referral_prompt(true, 0, false, true));
    assert!(!show_referral_prompt(true, 1, false, true));
    assert!(!show_referral_prompt(false, 0, false, true));
    assert!(show_onboarding(true, false));
    assert!(!show_onboarding(true, true));
    assert!(!show_onboarding(false, false));
}

#[test]
fn opening_keeps_six_posts_behind() {
    let mut q: Vec<u32> = (0..20).collect();
    let mut idx: usize = 10;
    open_feed_on(&mut q, &mut idx, 99);
    assert_eq!(q, (4..20).collect::<Vec<u32>>());
    assert_eq!(idx, 6);
    assert_eq!(q[idx], 10);
    let mut q: Vec<u32> = (0..5).collect();
    let mut idx: usize = 3;
    open_feed_on(&mut q, &mut idx, 99);
    assert_eq!(q, vec![0, 1, 2, 3, 4]);
    assert_eq!(idx, 3);
    let mut q: Vec<u32> = vec![7];
    let mut idx: usize = 0;
    open_feed_on(&mut q, &mut idx, 99);
    assert_eq!(q, vec![99]);
}

#[test]
fn fetch_rounds() {
    assert!(resumes_feed(2, false));
    assert!(resumes_feed(0, true));
    assert!(!resumes_feed(1, false));
    assert!(fetch_round_done(8, false));
    assert!(fetch_round_done(0, true));
    assert!(!fetch_round_done(7, false));
    assert!(page_is_last(3, 10));
    assert!(!page_is_last(10, 10));
}

#[test]
fn hybrid_feed_plan() {
    assert_eq!(hybrid_plan(0), FeedPlan::ColdStartCache { limit: 30 });
    assert_eq!(hybrid_plan(29), FeedPlan::ColdStartCache { limit: 30 });
    assert_eq!(hybrid_plan(30), FeedPlan::Personalised);
    assert_eq!(hybrid_fallback(), FeedPlan::ColdStartCache { limit: 50 });
}

#[test]
fn chunks_of_fetched_posts() {
    let results: Vec<Result<Option<u32>, &str>> =
        vec![Ok(Some(1)), Ok(None), Err("e"), Ok(Some(2)), Ok(Some(3)), Ok(None), Ok(Some(4))];
    let chunks = chunk_posts(results, 2);
    assert_eq!(chunks, vec![vec![Ok(1), Err("e")], vec![Ok(2), Ok(3)], vec![Ok(4)]]);
    let none: Vec<Result<Option<u32>, ()>> = vec![Ok(None), Ok(None)];
    assert!(chunk_posts(none, 3).is_empty());
    let exact: Vec<Result<Option<u8>, ()>> = vec![Ok(Some(1)), Ok(Some(2)), Ok(Some(3))];
    assert_eq!(chunk_posts(exact, 3), vec![vec![Ok(1), Ok(2), Ok(3)]]);
}

#[test]
fn post_cache_pages() {
    assert_eq!(post_cache_page(Ok(vec![1, 2]), 5), Ok((vec![1, 2], true)));
    assert_eq!(post_cache_page(Ok(vec![1, 2]), 2), Ok((vec![1, 2], false)));
    assert_eq!(post_cache_page::<u8>(Err(TopPostsError::ReachedEndOfItemsList), 5), Ok((vec![], true)));
    assert_eq!(
        post_cache_page::<u8>(Err(TopPostsError::Other), 5),
        Err("canister refused to send posts".to_string())
    );
    assert!(advances_cursor(FeedResultType::PostCache));
    assert!(advances_cursor(FeedResultType::MLFeedCache));
    assert!(!advances_cursor(FeedResultType::MLFeed));
    assert!(allows_nsfw(true, false) && allows_nsfw(false, true) && !allows_nsfw(false, false));
}
