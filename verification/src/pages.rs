use vstd::prelude::*;

use crate::cursor::{cursor_text, encode_cursor, Timestamp};
use crate::error::ApiError;
use crate::ids::{uuid_hyphenated, uuid_to_text};
use crate::text::{int_text, parse_i64, parsed_i64, push_int_text, push_text};

verus! {

/// Page size of a user's likes when none is asked for.
pub const DEFAULT_USER_LIKES_LIMIT: i64 = 20;

/// Number of leaderboard entries when none is asked for.
pub const DEFAULT_TOP_LIMIT: i64 = 10;

/// Largest page size and leaderboard length.
pub const MAX_LIMIT: i64 = 50;

/// The limit a `limit` query parameter asks for: its integer value, or
/// `default` when it is absent or not an integer, and never more than `max`.
pub open spec fn limit_of(raw: Option<Seq<char>>, default: i64, max: i64) -> i64 {
    let asked = match raw {
        Some(s) => match parsed_i64(s) {
            Some(v) => v,
            None => default,
        },
        None => default,
    };
    if asked < max { asked } else { max }
}

/// Reads a `limit` query parameter.
pub fn parse_limit(raw: Option<&str>, default: i64, max: i64) -> (r: i64)
    ensures
        r == limit_of(match raw { Some(s) => Some(s@), None => None }, default, max),
        r <= max,
        raw is None ==> r == (if default < max { default } else { max }),
{
    let asked = match raw {
        Some(s) => match parse_i64(s) {
            Some(v) => v,
            None => default,
        },
        None => default,
    };
    if asked < max { asked } else { max }
}

/// The start of the query that lists a user's likes.
pub open spec fn user_likes_select() -> Seq<char> {
    "SELECT content_type, content_id, liked_at\n         FROM likes\n         WHERE user_id = $1"@
}

/// The query that lists a user's likes, newest first: the user is bound to
/// `$1`, then the content type (when filtered on) and the cursor instant
/// (when given) to the next placeholders; one row more than the page is
/// asked for, to learn whether there are more.
pub open spec fn user_likes_query_text(has_content_type: bool, has_cursor: bool, limit: int) -> Seq<char> {
    let next_index: int = if has_content_type { 3 } else { 2 };
    user_likes_select()
        + (if has_content_type { " AND content_type = $"@ + int_text(2) } else { Seq::empty() })
        + (if has_cursor { " AND liked_at < $"@ + int_text(next_index) } else { Seq::empty() })
        + " ORDER BY liked_at DESC"@
        + " LIMIT "@ + int_text(limit + 1)
}

/// Builds the query that lists a user's likes.
pub fn user_likes_query(has_content_type: bool, has_cursor: bool, limit: i64) -> (r: String)
    requires
        limit < i64::MAX,
    ensures
        r@ == user_likes_query_text(has_content_type, has_cursor, limit as int),
{
    let mut query = String::from_str(
        "SELECT content_type, content_id, liked_at\n         FROM likes\n         WHERE user_id = $1",
    );
    let mut bind_index: i64 = 2;
    if has_content_type {
        push_text(&mut query, " AND content_type = $");
        push_int_text(&mut query, bind_index);
        bind_index = bind_index + 1;
    }
    if has_cursor {
        push_text(&mut query, " AND liked_at < $");
        push_int_text(&mut query, bind_index);
    }
    push_text(&mut query, " ORDER BY liked_at DESC");
    push_text(&mut query, " LIMIT ");
    push_int_text(&mut query, limit + 1);
    assert(query@ =~= user_likes_query_text(has_content_type, has_cursor, limit as int));
    query
}

/// A like of the user, as the database lists it.
pub struct UserLikeRow {
    pub content_type: String,
    pub content_id: u128,
    pub liked_at: Timestamp,
}

/// One entry of a page of a user's likes.
pub struct UserLikeItem {
    pub content_type: String,
    pub content_id: String,
    pub liked_at: Timestamp,
}

/// A page of a user's likes.
pub struct UserLikesResponse {
    pub items: Vec<UserLikeItem>,
    pub next_cursor: Option<String>,
    pub has_more: bool,
}

impl View for UserLikeItem {
    type V = (Seq<char>, Seq<char>, Timestamp);

    open spec fn view(&self) -> (Seq<char>, Seq<char>, Timestamp) {
        (self.content_type@, self.content_id@, self.liked_at)
    }
}

/// How many of the listed likes a page shows.
pub open spec fn page_len(rows: int, limit: int) -> int {
    if rows > limit { limit } else { rows }
}

/// Cuts the listed likes (newest first) into a page: at most `limit`
/// entries, `has_more` when more were listed, and then the cursor of the
/// last entry shown, from which the next page starts.
pub fn page_user_likes(rows: &Vec<UserLikeRow>, limit: i64) -> (r: UserLikesResponse)
    requires
        rows@.len() <= i64::MAX,
        rows@.len() > limit ==> limit >= 1,
    ensures
        r.has_more == (rows@.len() > limit),
        r.items@.len() == page_len(rows@.len() as int, limit as int),
        forall|i: int| 0 <= i < r.items@.len() ==> #[trigger] r.items@[i]@ == (
            rows@[i].content_type@,
            uuid_hyphenated(rows@[i].content_id),
            rows@[i].liked_at,
        ),
        r.has_more ==> (r.next_cursor matches Some(c)
            && c@ == cursor_text(rows@[limit - 1].liked_at@)),
        !r.has_more ==> r.next_cursor is None,
{
    let has_more = rows.len() as i64 > limit;
    let shown: usize = if has_more { limit as usize } else { rows.len() };
    let mut items: Vec<UserLikeItem> = Vec::new();
    let mut i: usize = 0;
    while i < shown
        invariant
            shown <= rows@.len(),
            i <= shown,
            items@.len() == i,
            forall|j: int| 0 <= j < i ==> #[trigger] items@[j]@ == (
                rows@[j].content_type@,
                uuid_hyphenated(rows@[j].content_id),
                rows@[j].liked_at,
            ),
        decreases shown - i,
    {
        let row = &rows[i];
        items.push(UserLikeItem {
            content_type: row.content_type.clone(),
            content_id: uuid_to_text(row.content_id),
            liked_at: row.liked_at,
        });
        i = i + 1;
    }
    let next_cursor = if has_more {
        Some(encode_cursor(&rows[shown - 1].liked_at))
    } else {
        None
    };
    UserLikesResponse { items, next_cursor, has_more }
}

/// The time span a leaderboard counts likes over.
#[derive(Clone, Copy, Debug, PartialEq, Eq, Structural)]
pub enum TopWindow {
    /// `24h`
    Day,
    /// `7d`
    Week,
    /// `30d`
    Month,
    /// `all`
    All,
}

/// The window a `window` query parameter names: `all` when it is absent.
pub open spec fn window_of(raw: Option<Seq<char>>) -> Option<TopWindow> {
    match raw {
        None => Some(TopWindow::All),
        Some(s) => if s == "24h"@ {
            Some(TopWindow::Day)
        } else if s == "7d"@ {
            Some(TopWindow::Week)
        } else if s == "30d"@ {
            Some(TopWindow::Month)
        } else if s == "all"@ {
            Some(TopWindow::All)
        } else {
            None
        },
    }
}

/// The name of a window, as it is asked for and answered.
pub open spec fn window_name(w: TopWindow) -> Seq<char> {
    match w {
        TopWindow::Day => "24h"@,
        TopWindow::Week => "7d"@,
        TopWindow::Month => "30d"@,
        TopWindow::All => "all"@,
    }
}

/// The SQL expression of the earliest instant a window counts.
pub open spec fn window_start(w: TopWindow) -> Option<Seq<char>> {
    match w {
        TopWindow::Day => Some("NOW() - INTERVAL '24 hours'"@),
        TopWindow::Week => Some("NOW() - INTERVAL '7 days'"@),
        TopWindow::Month => Some("NOW() - INTERVAL '30 days'"@),
        TopWindow::All => None,
    }
}

/// Whether two texts are the same.
fn same_text(a: &str, b: &str) -> (r: bool)
    ensures
        r == (a@ == b@),
{
    let n = a.unicode_len();
    if n != b.unicode_len() {
        return false;
    }
    let mut i: usize = 0;
    while i < n
        invariant
            n == a@.len(),
            n == b@.len(),
            i <= n,
            forall|j: int| 0 <= j < i ==> a@[j] == b@[j],
        decreases n - i,
    {
        if a.get_char(i) != b.get_char(i) {
            return false;
        }
        i = i + 1;
    }
    assert(a@ =~= b@);
    true
}

impl TopWindow {
    /// The name of the window.
    pub fn name(&self) -> (r: String)
        ensures
            r@ == window_name(*self),
    {
        match self {
            TopWindow::Day => String::from_str("24h"),
            TopWindow::Week => String::from_str("7d"),
            TopWindow::Month => String::from_str("30d"),
            TopWindow::All => String::from_str("all"),
        }
    }

    /// The SQL expression of the earliest instant the window counts, if it has one.
    pub fn start(&self) -> (r: Option<String>)
        ensures
            match window_start(*self) {
                Some(s) => r matches Some(t) && t@ == s,
                None => r is None,
            },
    {
        match self {
            TopWindow::Day => Some(String::from_str("NOW() - INTERVAL '24 hours'")),
            TopWindow::Week => Some(String::from_str("NOW() - INTERVAL '7 days'")),
            TopWindow::Month => Some(String::from_str("NOW() - INTERVAL '30 days'")),
            TopWindow::All => None,
        }
    }
}

/// Reads the `window` query parameter: `24h`, `7d`, `30d` or `all`
/// (`all` when absent); anything else is `INVALID_WINDOW`.
pub fn parse_window(raw: Option<&str>) -> (r: Result<TopWindow, ApiError>)
    ensures
        match window_of(match raw { Some(s) => Some(s@), None => None }) {
            Some(w) => r == Ok::<TopWindow, ApiError>(w),
            None => r == Err::<TopWindow, ApiError>(ApiError::InvalidWindow),
        },
{
    match raw {
        None => Ok(TopWindow::All),
        Some(s) => {
            if same_text(s, "24h") {
                Ok(TopWindow::Day)
            } else if same_text(s, "7d") {
                Ok(TopWindow::Week)
            } else if same_text(s, "30d") {
                Ok(TopWindow::Month)
            } else if same_text(s, "all") {
                Ok(TopWindow::All)
            } else {
                Err(ApiError::InvalidWindow)
            }
        },
    }
}

/// The start of the leaderboard query.
pub open spec fn top_select() -> Seq<char> {
    "SELECT content_type, content_id, COUNT(*) as count\n         FROM likes"@
}

/// The `WHERE` part of the leaderboard query: the window's start and the
/// content type (bound to `$1`), joined by `AND`, when there are any.
pub open spec fn top_where(w: TopWindow, has_content_type: bool) -> Seq<char> {
    let type_cond = "content_type = $"@ + int_text(1);
    match window_start(w) {
        Some(start) => if has_content_type {
            " WHERE "@ + ("liked_at >= "@ + start) + " AND "@ + type_cond
        } else {
            " WHERE "@ + ("liked_at >= "@ + start)
        },
        None => if has_content_type { " WHERE "@ + type_cond } else { Seq::empty() },
    }
}

/// The leaderboard query: likes per content, most liked first, at most `limit` rows.
pub open spec fn top_query_text(w: TopWindow, has_content_type: bool, limit: int) -> Seq<char> {
    top_select() + top_where(w, has_content_type)
        + " GROUP BY content_type, content_id"@
        + " ORDER BY count DESC"@
        + " LIMIT "@ + int_text(limit)
}

/// Builds the leaderboard query.
pub fn top_liked_query(window: TopWindow, has_content_type: bool, limit: i64) -> (r: String)
    ensures
        r@ == top_query_text(window, has_content_type, limit as int),
{
    let mut query = String::from_str("SELECT content_type, content_id, COUNT(*) as count\n         FROM likes");
    let ghost q0 = query@;
    let start = window.start();
    let has_conditions = start.is_some() || has_content_type;
    if has_conditions {
        push_text(&mut query, " WHERE ");
        match start {
            Some(s) => {
                push_text(&mut query, "liked_at >= ");
                push_text(&mut query, s.as_str());
                if has_content_type {
                    push_text(&mut query, " AND ");
                }
            },
            None => {},
        }
        if has_content_type {
            push_text(&mut query, "content_type = $");
            push_int_text(&mut query, 1);
        }
    }
    let ghost q1 = query@;
    assert(q1 =~= q0 + top_where(window, has_content_type));
    push_text(&mut query, " GROUP BY content_type, content_id");
    push_text(&mut query, " ORDER BY count DESC");
    push_text(&mut query, " LIMIT ");
    push_int_text(&mut query, limit);
    assert(query@ =~= top_query_text(window, has_content_type, limit as int));
    query
}

/// A content's like count, as the database counts it.
pub struct TopRow {
    pub content_type: String,
    pub content_id: u128,
    pub count: i64,
}

/// The leaderboard answer.
pub struct TopLikedResponse {
    pub window: String,
    pub content_type: Option<String>,
    pub items: Vec<TopLikedItem>,
}

/// One leaderboard entry.
pub struct TopLikedItem {
    pub content_type: String,
    pub content_id: String,
    pub count: i64,
}

impl View for TopLikedItem {
    type V = (Seq<char>, Seq<char>, i64);

    open spec fn view(&self) -> (Seq<char>, Seq<char>, i64) {
        (self.content_type@, self.content_id@, self.count)
    }
}

/// Answers a leaderboard request: the window's name, the content type
/// filtered on, and one entry per counted row, in the order counted.
pub fn top_liked_response(window: TopWindow, content_type: Option<String>, rows: &Vec<TopRow>) -> (r: TopLikedResponse)
    ensures
        r.window@ == window_name(window),
        r.content_type == content_type,
        r.items@.len() == rows@.len(),
        forall|i: int| 0 <= i < rows@.len() ==> #[trigger] r.items@[i]@ == (
            rows@[i].content_type@,
            uuid_hyphenated(rows@[i].content_id),
            rows@[i].count,
        ),
{
    let mut items: Vec<TopLikedItem> = Vec::new();
    let mut i: usize = 0;
    while i < rows.len()
        invariant
            i <= rows@.len(),
            items@.len() == i,
            forall|j: int| 0 <= j < i ==> #[trigger] items@[j]@ == (
                rows@[j].content_type@,
                uuid_hyphenated(rows@[j].content_id),
                rows@[j].count,
            ),
        decreases rows@.len() - i,
    {
        let row = &rows[i];
        items.push(TopLikedItem {
            content_type: row.content_type.clone(),
            content_id: uuid_to_text(row.content_id),
            count: row.count,
        });
        i = i + 1;
    }
    TopLikedResponse { window: window.name(), content_type, items }
}

} // verus!
