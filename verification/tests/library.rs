use social_api::cache::{cache_key, try_init_client, CACHE_TTL_SECS};
use social_api::config::{Config, ConfigError};
use social_api::cursor::{cursor_from_parsed, cursor_text_of, decode_cursor, encode_cursor, Timestamp};
use social_api::error::ApiError;
use social_api::ids::{extract_user_id, parse_content_id};
use social_api::likes::{
    after_insert, batch_cache_keys, batch_item_from_db, build_statuses, check_batch_size,
    collect_content_ids, count_from_cache, count_from_db, finish_like, finish_unlike,
    prepare_count, prepare_target, split_cached, BatchCounts, BatchItem, LikeRequest, LikeStep, LikedRow,
    MAX_BATCH_ITEMS,
};
use social_api::pages::{
    page_user_likes, parse_limit, parse_window, top_liked_query, top_liked_response,
    user_likes_query, TopRow, TopWindow, UserLikeRow, DEFAULT_TOP_LIMIT, DEFAULT_USER_LIKES_LIMIT,
    MAX_LIMIT,
};
use social_api::text::{parse_i64, parse_u16};

const USER: &str = "550e8400-e29b-41d4-a716-446655440000";
const USER_VALUE: u128 = 0x550e8400_e29b_41d4_a716_446655440000;
const POST: &str = "936da01f-9abd-4d9d-80c7-02af85c822a8";
const POST_VALUE: u128 = 0x936da01f_9abd_4d9d_80c7_02af85c822a8;

fn item(ct: &str, id: &str) -> BatchItem {
    BatchItem { content_type: ct.to_string(), content_id: id.to_string() }
}

fn ts(secs: i64, nanos: u32) -> Timestamp {
    Timestamp::new(secs, nanos).unwrap()
}

#[test]
fn error_statuses_and_messages() {
    let cases = [
        (ApiError::MissingUserId, 401, "Missing X-User-Id header"),
        (ApiError::InvalidUserIdHeader, 400, "Invalid X-User-Id header"),
        (ApiError::InvalidUserId, 400, "Invalid user_id"),
        (ApiError::InvalidContentId, 400, "INVALID_CONTENT_ID"),
        (ApiError::BatchTooLarge, 400, "BATCH_TOO_LARGE"),
        (ApiError::InvalidCursor, 400, "INVALID_CURSOR"),
        (ApiError::InvalidWindow, 400, "INVALID_WINDOW"),
        (ApiError::Database, 500, "DB error"),
    ];
    for (e, status, message) in cases {
        assert_eq!(e.status(), status);
        assert_eq!(e.message(), message);
    }
}

#[test]
fn integers_read_as_std_reads_them() {
    assert_eq!(parse_i64("20"), Some(20));
    assert_eq!(parse_i64("-7"), Some(-7));
    assert_eq!(parse_i64("+3"), Some(3));
    assert_eq!(parse_i64("007"), Some(7));
    assert_eq!(parse_i64("9223372036854775807"), Some(i64::MAX));
    assert_eq!(parse_i64("-9223372036854775808"), Some(i64::MIN));
    assert_eq!(parse_i64("9223372036854775808"), None);
    assert_eq!(parse_i64("99999999999999999999999"), None);
    assert_eq!(parse_i64(""), None);
    assert_eq!(parse_i64("-"), None);
    assert_eq!(parse_i64("+"), None);
    assert_eq!(parse_i64(" 5"), None);
    assert_eq!(parse_i64("5x"), None);
    assert_eq!(parse_u16("8080"), Some(8080));
    assert_eq!(parse_u16("65535"), Some(65535));
    assert_eq!(parse_u16("65536"), None);
    assert_eq!(parse_u16("-1"), None);
    assert_eq!(parse_u16("+80"), Some(80));
    for s in ["0", "12", "-12", "+12", "", "x", "-", "1e3", "300000"] {
        assert_eq!(parse_i64(s), s.parse::<i64>().ok());
        assert_eq!(parse_u16(s), s.parse::<u16>().ok());
    }
}

#[test]
fn limits_default_and_are_capped() {
    assert_eq!(parse_limit(None, DEFAULT_USER_LIKES_LIMIT, MAX_LIMIT), 20);
    assert_eq!(parse_limit(None, DEFAULT_TOP_LIMIT, MAX_LIMIT), 10);
    assert_eq!(parse_limit(Some("75"), 20, 50), 50);
    assert_eq!(parse_limit(Some("7"), 20, 50), 7);
    assert_eq!(parse_limit(Some("abc"), 20, 50), 20);
    assert_eq!(parse_limit(Some("-5"), 20, 50), -5);
    assert_eq!(parse_limit(Some("50"), 10, 50), 50);
}

#[test]
fn config_reads_values_in_order() {
    let s = |v: &str| Some(v.to_string());
    let c = Config::from_values(s("db"), s("ro"), s("redis://localhost/"), None).unwrap();
    assert_eq!(c.database_url, "db");
    assert_eq!(c.read_database_url, "ro");
    assert_eq!(c.redis_url, "redis://localhost/");
    assert_eq!(c.http_port, 8080);
    let c = Config::from_values(s("db"), s("ro"), s("r"), s("9000")).unwrap();
    assert_eq!(c.http_port, 9000);
    assert_eq!(Config::from_values(None, None, None, s("x")).unwrap_err(), ConfigError::MissingDatabaseUrl);
    assert_eq!(Config::from_values(s("db"), None, None, None).unwrap_err(), ConfigError::MissingReadDatabaseUrl);
    assert_eq!(Config::from_values(s("db"), s("ro"), None, None).unwrap_err(), ConfigError::MissingRedisUrl);
    let e = Config::from_values(s("db"), s("ro"), s("r"), s("70000")).unwrap_err();
    assert_eq!(e, ConfigError::InvalidHttpPort);
    assert_eq!(e.message(), "Invalid HTTP_PORT");
    assert_eq!(ConfigError::MissingDatabaseUrl.message(), "DATABASE_URL missing");
}

#[test]
fn user_id_header() {
    assert_eq!(extract_user_id(None), Err(ApiError::MissingUserId));
    assert_eq!(extract_user_id(Some(&b"abc\x7f"[..])), Err(ApiError::InvalidUserIdHeader));
    assert_eq!(extract_user_id(Some(&b"\xc3\xa9"[..])), Err(ApiError::InvalidUserIdHeader));
    assert_eq!(extract_user_id(Some(&b"not-a-uuid"[..])), Err(ApiError::InvalidUserId));
    assert_eq!(extract_user_id(Some(&b"\t550e8400-e29b-41d4-a716-446655440000"[..])), Err(ApiError::InvalidUserId));
    assert_eq!(extract_user_id(Some(USER.as_bytes())), Ok(USER_VALUE));
    assert_eq!(extract_user_id(Some(&b"550E8400-E29B-41D4-A716-446655440000"[..])), Ok(USER_VALUE));
    assert_eq!(extract_user_id(Some(&b"550e8400e29b41d4a716446655440000"[..])), Ok(USER_VALUE));
    assert_eq!(extract_user_id(Some(&b"{550e8400-e29b-41d4-a716-446655440000}"[..])), Ok(USER_VALUE));
    assert_eq!(
        extract_user_id(Some(&b"urn:uuid:550e8400-e29b-41d4-a716-446655440000"[..])),
        Ok(USER_VALUE)
    );
}

#[test]
fn content_ids() {
    assert_eq!(parse_content_id(POST), Ok(POST_VALUE));
    assert_eq!(parse_content_id("936da01f-9abd-4d9d-80c7-02af85c822a"), Err(ApiError::InvalidContentId));
    assert_eq!(parse_content_id(""), Err(ApiError::InvalidContentId));
}

#[test]
fn cache_key_format() {
    assert_eq!(cache_key("post", POST), format!("likes:count:post:{}", POST));
    assert_eq!(cache_key("", ""), "likes:count::");
    assert_eq!(CACHE_TTL_SECS, 300);
}

#[test]
fn redis_client_urls() {
    assert!(try_init_client("redis://127.0.0.1/").is_some());
    assert!(try_init_client("not a url").is_none());
    let _client = social_api::cache::init_client("redis://localhost:6379/0");
}

#[test]
fn like_target_checks_user_then_content() {
    let req = LikeRequest { content_type: "post".to_string(), content_id: "bad".to_string() };
    let r = prepare_target(None, &req.content_type, &req.content_id);
    assert_eq!(r.err(), Some(ApiError::MissingUserId));
    let r = prepare_target(Some(USER.as_bytes()), &req.content_type, &req.content_id);
    assert_eq!(r.err(), Some(ApiError::InvalidContentId));
    let t = prepare_target(Some(USER.as_bytes()), "post", POST).ok().unwrap();
    assert_eq!(t.user_id, USER_VALUE);
    assert_eq!(t.content_id, POST_VALUE);
    assert_eq!(t.content_type, "post");
    assert_eq!(t.cache_key, format!("likes:count:post:{}", POST));
}

#[test]
fn new_like_increments_counter_once() {
    let t = prepare_target(Some(USER.as_bytes()), "post", POST).ok().unwrap();
    let at = ts(1_700_000_000, 0);
    let step = after_insert(Some(at));
    assert!(matches!(step, LikeStep::Created(x) if x == at));
    let out = finish_like(&t, false, at, Some(3));
    assert!(out.response.liked);
    assert!(!out.response.already_existed);
    assert_eq!(out.response.count, 3);
    assert_eq!(out.response.liked_at, Some(at));
    assert_eq!(out.cache_increment.unwrap().key, t.cache_key);
}

#[test]
fn repeated_like_changes_no_counter() {
    let t = prepare_target(Some(USER.as_bytes()), "post", POST).ok().unwrap();
    assert!(matches!(after_insert(None), LikeStep::LookUpExisting));
    let at = ts(1_600_000_000, 5);
    let out = finish_like(&t, true, at, None);
    assert!(out.response.liked);
    assert!(out.response.already_existed);
    assert_eq!(out.response.count, 0);
    assert_eq!(out.response.liked_at, Some(at));
    assert!(out.cache_increment.is_none());
}

#[test]
fn unlike_decrements_only_a_removed_like() {
    let t = prepare_target(Some(USER.as_bytes()), "post", POST).ok().unwrap();
    let out = finish_unlike(&t, true, Some(0));
    assert!(!out.response.liked);
    assert!(out.response.was_liked);
    assert_eq!(out.response.count, 0);
    assert_eq!(out.cache_decrement.unwrap().key, t.cache_key);
    let out = finish_unlike(&t, false, Some(4));
    assert!(!out.response.was_liked);
    assert_eq!(out.response.count, 4);
    assert!(out.cache_decrement.is_none());
    let like = finish_like(&t, false, ts(1, 0), Some(1));
    let unlike = finish_unlike(&t, true, Some(0));
    assert_eq!(like.cache_increment.unwrap().key, unlike.cache_decrement.unwrap().key);
}

#[test]
fn count_prefers_cache_then_database() {
    assert_eq!(prepare_count("post", "nope").err(), Some(ApiError::InvalidContentId));
    let t = prepare_count("post", POST).ok().unwrap();
    assert_eq!(t.content_uuid, POST_VALUE);
    let hit = count_from_cache(&t, Some(9)).unwrap();
    assert_eq!((hit.content_type.as_str(), hit.content_id.as_str(), hit.count), ("post", POST, 9));
    assert!(count_from_cache(&t, None).is_none());
    let (resp, write) = count_from_db(&t, Some(4));
    assert_eq!(resp.count, 4);
    assert_eq!(resp.content_id, POST);
    assert_eq!(write.key, format!("likes:count:post:{}", POST));
    assert_eq!(write.value, 4);
    assert_eq!(write.ttl_secs, 300);
    let (resp, write) = count_from_db(&t, None);
    assert_eq!((resp.count, write.value), (0, 0));
}

#[test]
fn batches_of_at_most_one_hundred() {
    let items: Vec<BatchItem> = (0..MAX_BATCH_ITEMS).map(|_| item("post", POST)).collect();
    assert!(check_batch_size(&items).is_ok());
    let mut more = items.clone();
    more.push(item("post", POST));
    assert_eq!(check_batch_size(&more), Err(ApiError::BatchTooLarge));
    assert!(check_batch_size(&Vec::new()).is_ok());
}

#[test]
fn batch_counts_cached_first_then_misses() {
    let items = vec![item("post", "a"), item("video", "b"), item("post", "c")];
    assert_eq!(batch_cache_keys(&items), vec!["likes:count:post:a", "likes:count:video:b", "likes:count:post:c"]);
    let (hits, misses) = split_cached(&items, &vec![Some(5), None, Some(7)]);
    let hits: Vec<(String, String, i64)> =
        hits.into_iter().map(|h| (h.content_type, h.content_id, h.count)).collect();
    assert_eq!(hits, vec![("post".to_string(), "a".to_string(), 5), ("post".to_string(), "c".to_string(), 7)]);
    assert_eq!(misses, vec![1]);
    let (hits, misses) = split_cached(&items, &vec![]);
    assert!(hits.is_empty());
    assert_eq!(misses, vec![0, 1, 2]);
    let (hits, misses) = split_cached(&items, &vec![None]);
    assert!(hits.is_empty());
    assert_eq!(misses, vec![0, 1, 2]);
    let (hits, misses) = split_cached(&items, &vec![Some(4)]);
    assert_eq!(hits.len(), 1);
    assert_eq!(misses, vec![1, 2]);
    let t = prepare_count("post", POST).ok().unwrap();
    let row = batch_item_from_db(&t, None);
    assert_eq!((row.content_type.as_str(), row.content_id.as_str(), row.count), ("post", POST, 0));
}

#[test]
fn batch_statuses() {
    let items = vec![item("post", POST), item("video", POST), item("post", USER)];
    assert_eq!(collect_content_ids(&items), Ok(vec![POST_VALUE, POST_VALUE, USER_VALUE]));
    assert_eq!(collect_content_ids(&vec![item("post", POST), item("post", "x")]), Err(ApiError::InvalidContentId));
    let rows = vec![
        LikedRow { content_type: "post".to_string(), content_id: POST_VALUE, liked_at: ts(10, 0) },
        LikedRow { content_type: "post".to_string(), content_id: POST_VALUE, liked_at: ts(20, 0) },
        LikedRow { content_type: "post".to_string(), content_id: 7, liked_at: ts(30, 0) },
    ];
    let resp = build_statuses(&items, &rows).ok().unwrap();
    assert_eq!(resp.results.len(), 3);
    assert!(resp.results[0].liked);
    assert_eq!(resp.results[0].liked_at, Some(ts(20, 0)));
    assert_eq!(resp.results[1].content_type, "video");
    assert!(!resp.results[1].liked);
    assert_eq!(resp.results[1].liked_at, None);
    assert!(!resp.results[2].liked);
    assert_eq!(resp.results[2].content_id, USER);
    assert!(build_statuses(&vec![item("post", "x")], &rows).is_err());
    assert!(build_statuses(&vec![], &rows).ok().unwrap().results.is_empty());
}

#[test]
fn user_likes_queries() {
    let base = "SELECT content_type, content_id, liked_at\n         FROM likes\n         WHERE user_id = $1";
    assert_eq!(user_likes_query(false, false, 20), format!("{} ORDER BY liked_at DESC LIMIT 21", base));
    assert_eq!(
        user_likes_query(true, false, 50),
        format!("{} AND content_type = $2 ORDER BY liked_at DESC LIMIT 51", base)
    );
    assert_eq!(
        user_likes_query(false, true, 5),
        format!("{} AND liked_at < $2 ORDER BY liked_at DESC LIMIT 6", base)
    );
    assert_eq!(
        user_likes_query(true, true, -5),
        format!("{} AND content_type = $2 AND liked_at < $3 ORDER BY liked_at DESC LIMIT -4", base)
    );
    assert_eq!(
        user_likes_query(false, false, i64::MIN),
        format!("{} ORDER BY liked_at DESC LIMIT -9223372036854775807", base)
    );
}

#[test]
fn cursor_text_and_round_trip() {
    let t = ts(1_700_000_000, 123_456_000);
    assert_eq!(t.to_text(), "2023-11-14 22:13:20.123456 UTC");
    let c = encode_cursor(&t);
    assert_eq!(c, "MjAyMy0xMS0xNCAyMjoxMzoyMC4xMjM0NTYgVVRD");
    assert_eq!(decode_cursor(&c), Ok(t));
    let plain = ts(1_700_000_000, 0);
    assert_eq!(encode_cursor(&plain), "MjAyMy0xMS0xNCAyMjoxMzoyMCBVVEM=");
    assert_eq!(decode_cursor("MjAyMy0xMS0xNCAyMjoxMzoyMCBVVEM="), Ok(plain));
    assert_eq!((plain.secs(), plain.nanos()), (1_700_000_000, 0));
    for (s, n) in [(0i64, 0u32), (-1, 999_999_999), (253_402_300_799, 1), (-62_135_596_800, 500), (-70_000_000_000, 0), (400_000_000_000, 42), (-8_000_000_000_000, 7), (1_483_228_799, 1_000_000_000), (1_483_228_799, 1_500_000_000)] {
        let t = ts(s, n);
        assert_eq!(decode_cursor(&encode_cursor(&t)), Ok(t));
    }
}

#[test]
fn bad_cursors() {
    assert_eq!(decode_cursor("!!!"), Err(ApiError::InvalidCursor));
    assert_eq!(decode_cursor("//4="), Err(ApiError::InvalidCursor));
    assert_eq!(decode_cursor("aGVsbG8="), Err(ApiError::InvalidCursor));
    assert_eq!(decode_cursor("MjAyMy0xMS0xNCAyMjoxMzoyMCBVVEM"), Err(ApiError::InvalidCursor));
    assert!(Timestamp::new(i64::MAX, 0).is_none());
    assert!(Timestamp::new(0, 2_000_000_000).is_none());
}

#[test]
fn pages_of_user_likes() {
    let rows: Vec<UserLikeRow> = (0..3)
        .map(|i| UserLikeRow {
            content_type: "post".to_string(),
            content_id: POST_VALUE + i as u128,
            liked_at: ts(1_700_000_000 - i as i64, 0),
        })
        .collect();
    let page = page_user_likes(&rows, 2);
    assert!(page.has_more);
    assert_eq!(page.items.len(), 2);
    assert_eq!(page.items[0].content_id, POST);
    assert_eq!(page.items[1].content_id, "936da01f-9abd-4d9d-80c7-02af85c822a9");
    assert_eq!(page.items[1].liked_at, ts(1_699_999_999, 0));
    let cursor = page.next_cursor.unwrap();
    assert_eq!(decode_cursor(&cursor), Ok(ts(1_699_999_999, 0)));
    let last = page_user_likes(&rows, 3);
    assert!(!last.has_more);
    assert_eq!(last.items.len(), 3);
    assert!(last.next_cursor.is_none());
    let empty = page_user_likes(&Vec::new(), 0);
    assert!(!empty.has_more && empty.items.is_empty() && empty.next_cursor.is_none());
}

#[test]
fn leaderboard_windows() {
    assert_eq!(parse_window(None), Ok(TopWindow::All));
    assert_eq!(parse_window(Some("24h")), Ok(TopWindow::Day));
    assert_eq!(parse_window(Some("7d")), Ok(TopWindow::Week));
    assert_eq!(parse_window(Some("30d")), Ok(TopWindow::Month));
    assert_eq!(parse_window(Some("all")), Ok(TopWindow::All));
    assert_eq!(parse_window(Some("1y")), Err(ApiError::InvalidWindow));
    assert_eq!(parse_window(Some("ALL")), Err(ApiError::InvalidWindow));
    assert_eq!(TopWindow::Week.name(), "7d");
    assert_eq!(TopWindow::All.start(), None);
    assert_eq!(TopWindow::Day.start().unwrap(), "NOW() - INTERVAL '24 hours'");
}

#[test]
fn leaderboard_queries() {
    let base = "SELECT content_type, content_id, COUNT(*) as count\n         FROM likes";
    let tail = " GROUP BY content_type, content_id ORDER BY count DESC LIMIT 10";
    assert_eq!(top_liked_query(TopWindow::All, false, 10), format!("{}{}", base, tail));
    assert_eq!(
        top_liked_query(TopWindow::All, true, 10),
        format!("{} WHERE content_type = $1{}", base, tail)
    );
    assert_eq!(
        top_liked_query(TopWindow::Week, false, 10),
        format!("{} WHERE liked_at >= NOW() - INTERVAL '7 days'{}", base, tail)
    );
    assert_eq!(
        top_liked_query(TopWindow::Month, true, 10),
        format!("{} WHERE liked_at >= NOW() - INTERVAL '30 days' AND content_type = $1{}", base, tail)
    );
    assert_eq!(
        top_liked_query(TopWindow::Day, false, -3),
        format!("{} WHERE liked_at >= NOW() - INTERVAL '24 hours' GROUP BY content_type, content_id ORDER BY count DESC LIMIT -3", base)
    );
}

#[test]
fn leaderboard_answer() {
    let rows = vec![
        TopRow { content_type: "post".to_string(), content_id: POST_VALUE, count: 9 },
        TopRow { content_type: "video".to_string(), content_id: USER_VALUE, count: 2 },
    ];
    let resp = top_liked_response(TopWindow::Day, Some("post".to_string()), &rows);
    assert_eq!(resp.window, "24h");
    assert_eq!(resp.content_type.as_deref(), Some("post"));
    assert_eq!(resp.items.len(), 2);
    assert_eq!(resp.items[0].content_id, POST);
    assert_eq!(resp.items[0].count, 9);
    assert_eq!(resp.items[1].content_type, "video");
    assert_eq!(resp.items[1].content_id, USER);
    let resp = top_liked_response(TopWindow::All, None, &Vec::new());
    assert_eq!(resp.window, "all");
    assert!(resp.content_type.is_none() && resp.items.is_empty());
}

#[test]
fn batch_split_partition_law_on_values() {
    let items = vec![item("a", "1"), item("b", "2"), item("c", "3"), item("d", "4")];
    let cached = vec![None, Some(1), None, Some(2)];
    let (hits, misses) = split_cached(&items, &cached);
    assert_eq!(hits.len() + misses.len(), cached.len());
    for m in &misses {
        assert!(cached[*m].is_none());
    }
}

#[test]
fn batch_counting_with_cache() {
    let items = vec![item("post", POST), item("video", "bad"), item("post", USER), item("post", "a")];
    let mut counting = BatchCounts::from_cache(&items, &vec![None, Some(3), None]);
    let t = counting.next_target(&items).unwrap().ok().unwrap();
    assert_eq!((t.content_type.as_str(), t.content_id.as_str()), ("post", POST));
    let w = counting.record(&items, &t, Some(8));
    assert_eq!((w.key.as_str(), w.value, w.ttl_secs), (format!("likes:count:post:{}", POST).as_str(), 8, 300));
    let t = counting.next_target(&items).unwrap().ok().unwrap();
    assert_eq!(t.content_uuid, USER_VALUE);
    let w = counting.record(&items, &t, None);
    assert_eq!(w.value, 0);
    // The cache did not answer for the last item: it is counted too.
    assert_eq!(counting.next_target(&items).unwrap().err(), Some(ApiError::InvalidContentId));
    let resp = counting.finish();
    let got: Vec<(String, String, i64)> =
        resp.results.into_iter().map(|r| (r.content_type, r.content_id, r.count)).collect();
    assert_eq!(
        got,
        vec![
            ("video".to_string(), "bad".to_string(), 3),
            ("post".to_string(), POST.to_string(), 8),
            ("post".to_string(), USER.to_string(), 0),
        ]
    );
}

#[test]
fn batch_counting_without_cache() {
    let items = vec![item("post", POST), item("video", "bad")];
    let mut counting = BatchCounts::uncached(&items);
    let t = counting.next_target(&items).unwrap().ok().unwrap();
    counting.record(&items, &t, Some(1));
    assert_eq!(counting.next_target(&items).unwrap().err(), Some(ApiError::InvalidContentId));
    let empty = BatchCounts::uncached(&Vec::new());
    assert!(empty.next_target(&Vec::new()).is_none());
    assert!(empty.finish().results.is_empty());
}

#[test]
fn ids_written_in_answers_are_accepted_back() {
    let rows = vec![TopRow { content_type: "post".to_string(), content_id: POST_VALUE, count: 1 }];
    let resp = top_liked_response(TopWindow::All, None, &rows);
    let written = &resp.items[0].content_id;
    assert_eq!(parse_content_id(written), Ok(POST_VALUE));
    let t = prepare_target(Some(USER.as_bytes()), "post", written).ok().unwrap();
    assert_eq!(t.content_id, POST_VALUE);
    for v in [0u128, 1, u128::MAX, 0xabcdef] {
        let rows = vec![TopRow { content_type: "x".to_string(), content_id: v, count: 0 }];
        let id = top_liked_response(TopWindow::All, None, &rows).items.remove(0).content_id;
        assert_eq!(id.len(), 36);
        assert_eq!(parse_content_id(&id), Ok(v));
    }
}

#[test]
fn a_missed_single_item_is_counted() {
    let items = vec![item("post", POST)];
    let mut counting = BatchCounts::from_cache(&items, &Vec::new());
    let t = counting.next_target(&items).unwrap().ok().unwrap();
    let w = counting.record(&items, &t, Some(2));
    assert_eq!((w.value, w.ttl_secs), (2, 300));
    assert!(counting.next_target(&items).is_none());
    let resp = counting.finish();
    assert_eq!(resp.results.len(), 1);
    assert_eq!(resp.results[0].count, 2);
}

#[test]
fn leap_second_cursor() {
    let t = ts(1_483_228_799, 1_500_000_000);
    assert_eq!(t.to_text(), "2016-12-31 23:59:60.500 UTC");
    assert_eq!(decode_cursor(&encode_cursor(&t)), Ok(t));
    assert!(Timestamp::new(1_483_228_798, 1_500_000_000).is_none());
}

#[test]
fn cursor_steps_on_given_values() {
    assert_eq!(cursor_text_of(None), Err(ApiError::InvalidCursor));
    assert_eq!(cursor_text_of(Some(vec![0xff, 0xfe])), Err(ApiError::InvalidCursor));
    assert_eq!(cursor_text_of(Some(b"2023-11-14 22:13:20 UTC".to_vec())), Ok("2023-11-14 22:13:20 UTC".to_string()));
    assert_eq!(cursor_text_of(Some("é".as_bytes().to_vec())), Ok("é".to_string()));
    assert_eq!(cursor_from_parsed(None), Err(ApiError::InvalidCursor));
    assert_eq!(cursor_from_parsed(Some((1_700_000_000, 0))), Ok(ts(1_700_000_000, 0)));
    assert_eq!(cursor_from_parsed(Some((i64::MAX, 0))), Err(ApiError::InvalidCursor));
}
