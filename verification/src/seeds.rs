//! How much each seeding program stores, and the statements it stores
//! each row with.

use vstd::prelude::*;
use crate::sql::{
    with_four_params, with_param, with_params, with_three_params, SqlParam, SqlParamView,
    SqlStatement, SqlStatementView,
};
use crate::events::FunnelEvent;
use crate::text::{join_words, joined, texts_view};
use crate::time::{draw_between, drawable, drawn_between, Instant, TimeWindow};
use crate::videos::{view_target_spec, CatalogView, SeedError, ViewTarget};

verus! {

/// Log lines stored for the pivot table.
pub const LOG_ROWS: usize = 100_000;

/// A log message has at least this many words...
pub const LOG_WORDS_MIN: usize = 10;

/// ...and fewer than this many.
pub const LOG_WORDS_END: usize = 20;

/// Users stored for the row-level security experiment.
pub const RLS_USERS: usize = 10;

/// Posts stored for each of those users.
pub const POSTS_PER_USER: usize = 10;

/// A post title has at least this many words...
pub const TITLE_WORDS_MIN: usize = 2;

/// ...and fewer than this many.
pub const TITLE_WORDS_END: usize = 10;

/// A post body has at least this many words...
pub const BODY_WORDS_MIN: usize = 20;

/// ...and fewer than this many.
pub const BODY_WORDS_END: usize = 50;

/// Visitors whose events the lateral-join experiment stores.
pub const VISITORS: usize = 100_000;

/// Video ids generated for the window-function experiment.
pub const VIDEO_ID_COUNT: usize = 100;

/// User ids generated for the window-function experiment.
pub const USER_ID_COUNT: usize = 10_000;

/// Videos stored, one for each of the first ids.
pub const VIDEOS: usize = 100;

/// Views stored.
pub const VIEWS: usize = 100_000;

/// A view is played for fewer seconds than this.
pub const PLAY_SECS_END: i32 = 600;

pub open spec fn log_insert_spec(message: Seq<char>, created_at: Instant) -> SqlStatementView {
    SqlStatementView {
        sql: "insert into logs(message, created_at) values($1, $2)"@,
        params: seq![SqlParamView::Text(message), SqlParamView::Timestamp(created_at)],
    }
}

/// Stores a log line.
pub fn log_insert(message: String, created_at: Instant) -> (stmt: SqlStatement)
    ensures
        stmt@ == log_insert_spec(message@, created_at),
{
    with_params(
        "insert into logs(message, created_at) values($1, $2)",
        SqlParam::Text(message),
        SqlParam::Timestamp(created_at),
    )
}

/// Seeds one log line: the words joined with spaces, dated at a random
/// time of the window.
pub fn seed_log_line(words: &Vec<String>, window: TimeWindow) -> (stmt: SqlStatement)
    requires
        drawable(window.start, window.end),
    ensures
        exists|created_at: Instant|
            drawn_between(window.start, window.end, created_at) && stmt@ == log_insert_spec(
                joined(texts_view(words@), " "@),
                created_at,
            ),
{
    let created_at = draw_between(window.start, window.end);
    log_insert(join_words(words), created_at)
}

pub open spec fn event_insert_spec(event: FunnelEvent, data: Seq<char>) -> SqlStatementView {
    SqlStatementView {
        sql: "insert into events(visitor_id, data, created_at) values($1, $2, $3)"@,
        params: seq![
            SqlParamView::Uuid(event.visitor_of()),
            SqlParamView::Json(data),
            SqlParamView::Timestamp(event.time_of()),
        ],
    }
}

/// Stores an event: its visitor, its JSON document, and its time.
pub fn event_insert(event: &FunnelEvent, data: String) -> (stmt: SqlStatement)
    ensures
        stmt@ == event_insert_spec(*event, data@),
{
    with_three_params(
        "insert into events(visitor_id, data, created_at) values($1, $2, $3)",
        SqlParam::Uuid(event.visitor_id()),
        SqlParam::Json(data),
        SqlParam::Timestamp(event.event_time()),
    )
}

/// Every insert binds its values in the order of its columns, each value
/// unchanged: a log line's message then its time; a user's handle; a post's
/// user id, title and body; a video's id, creator and creation time; a
/// view's video, user, seconds played and time.
pub proof fn law_insert_rows_bind_in_column_order(
    text: Seq<char>,
    other: Seq<char>,
    id: i64,
    first: u128,
    second: u128,
    secs: i32,
    t: Instant,
)
    ensures
        log_insert_spec(text, t).params =~= seq![SqlParamView::Text(text), SqlParamView::Timestamp(t)],
        user_insert_spec(text).params =~= seq![SqlParamView::Text(text)],
        post_insert_spec(id, text, other).params =~= seq![
            SqlParamView::BigInt(id),
            SqlParamView::Text(text),
            SqlParamView::Text(other),
        ],
        video_insert_spec(first, second, t).params =~= seq![
            SqlParamView::Uuid(first),
            SqlParamView::Uuid(second),
            SqlParamView::Timestamp(t),
        ],
        view_insert_spec(first, second, secs, t).params =~= seq![
            SqlParamView::Uuid(first),
            SqlParamView::Uuid(second),
            SqlParamView::Int(secs),
            SqlParamView::Timestamp(t),
        ],
{
}

/// Every event row belongs to the event's own visitor and time, whatever its
/// kind, and carries the document it is given; so all rows of one seeded
/// visitor share the visitor column, and a registration or a payment joins
/// back to the visit.
pub proof fn law_event_rows_keep_visitor_and_time(
    event: FunnelEvent,
    data: Seq<char>,
    visitor_id: u128,
    visited_at: Instant,
    registers: bool,
    pays: bool,
    user_id: u32,
    registered_at: Instant,
    paid_at: Instant,
)
    ensures
        ({
            let row = event_insert_spec(event, data);
            let (visitor, time) = match event {
                FunnelEvent::Visited(e) => (e.visitor_id, e.event_time),
                FunnelEvent::Registered(e) => (e.visitor_id, e.event_time),
                FunnelEvent::Paid(e) => (e.visitor_id, e.event_time),
            };
            row.params.len() == 3 && row.params[0] == SqlParamView::Uuid(visitor)
                && row.params[1] == SqlParamView::Json(data) && row.params[2]
                == SqlParamView::Timestamp(time)
        }),
        ({
            let f = crate::events::funnel_spec(
                visitor_id,
                visited_at,
                registers,
                pays,
                user_id,
                registered_at,
                paid_at,
            );
            forall|i: int|
                0 <= i < f.len() ==> (#[trigger] event_insert_spec(f[i], data)).params[0]
                    == SqlParamView::Uuid(visitor_id)
        }),
{
}

/// How many rows a run has stored after `calls` requests for another row,
/// when it stores `total` rows in all.
pub open spec fn stored_after(total: nat, calls: nat) -> nat
    decreases calls,
{
    if calls == 0 {
        0
    } else {
        let before = stored_after(total, (calls - 1) as nat);
        if before < total {
            before + 1
        } else {
            before
        }
    }
}

/// Counts the rows of a seeding run against its total.
pub struct RowCount {
    stored: usize,
    total: usize,
}

impl RowCount {
    pub closed spec fn stored(&self) -> nat {
        self.stored as nat
    }

    pub closed spec fn total(&self) -> nat {
        self.total as nat
    }

    /// A run that is to store `total` rows, none stored yet.
    pub fn new(total: usize) -> (c: RowCount)
        ensures
            c.stored() == 0,
            c.total() == total,
    {
        RowCount { stored: 0, total }
    }

    /// Whether another row is to be stored; if so, it is counted.
    pub fn next(&mut self) -> (more: bool)
        ensures
            more == (old(self).stored() < old(self).total()),
            final(self).total() == old(self).total(),
            final(self).stored() == if more {
                old(self).stored() + 1
            } else {
                old(self).stored()
            },
    {
        if self.stored < self.total {
            self.stored = self.stored + 1;
            true
        } else {
            false
        }
    }
}

/// A run of `total` rows answers "another row" to exactly its first `total`
/// requests: after any number of requests it has stored that many rows, or
/// all `total` of them, whichever is fewer.
pub proof fn law_run_stores_its_total(total: nat, calls: nat)
    ensures
        stored_after(total, calls) == if calls < total {
            calls
        } else {
            total
        },
    decreases calls,
{
    if calls > 0 {
        law_run_stores_its_total(total, (calls - 1) as nat);
    }
}

pub open spec fn user_insert_spec(handle: Seq<char>) -> SqlStatementView {
    SqlStatementView {
        sql: "insert into users(handle) values($1) returning id"@,
        params: seq![SqlParamView::Text(handle)],
    }
}

/// Stores a user, returning the new id.
pub fn user_insert(handle: String) -> (stmt: SqlStatement)
    ensures
        stmt@ == user_insert_spec(handle@),
{
    with_param("insert into users(handle) values($1) returning id", SqlParam::Text(handle))
}

pub open spec fn post_insert_spec(user_id: i64, title: Seq<char>, body: Seq<char>) -> SqlStatementView {
    SqlStatementView {
        sql: "insert into posts(user_id,title, body) values($1, $2, $3)"@,
        params: seq![SqlParamView::BigInt(user_id), SqlParamView::Text(title), SqlParamView::Text(body)],
    }
}

/// Stores a post of user `user_id`.
pub fn post_insert(user_id: i64, title: String, body: String) -> (stmt: SqlStatement)
    ensures
        stmt@ == post_insert_spec(user_id, title@, body@),
{
    with_three_params(
        "insert into posts(user_id,title, body) values($1, $2, $3)",
        SqlParam::BigInt(user_id),
        SqlParam::Text(title),
        SqlParam::Text(body),
    )
}

pub open spec fn video_insert_spec(video_id: u128, creator_id: u128, created_at: Instant) -> SqlStatementView {
    SqlStatementView {
        sql: "\n                    insert into videos(id, creator_id, created_at) \n                    values ($1, $2, $3)\n                    "@,
        params: seq![
            SqlParamView::Uuid(video_id),
            SqlParamView::Uuid(creator_id),
            SqlParamView::Timestamp(created_at),
        ],
    }
}

/// Stores a video with its creator and creation time.
pub fn video_insert(video_id: u128, creator_id: u128, created_at: Instant) -> (stmt: SqlStatement)
    ensures
        stmt@ == video_insert_spec(video_id, creator_id, created_at),
{
    with_three_params(
        "\n                    insert into videos(id, creator_id, created_at) \n                    values ($1, $2, $3)\n                    ",
        SqlParam::Uuid(video_id),
        SqlParam::Uuid(creator_id),
        SqlParam::Timestamp(created_at),
    )
}

pub open spec fn view_insert_spec(video_id: u128, viewer_id: u128, secs: i32, played_at: Instant) -> SqlStatementView {
    SqlStatementView {
        sql: "\n                    insert into views(video_id, user_id, time_played, created_at) \n                    values ($1, $2, $3, $4)\n                    "@,
        params: seq![
            SqlParamView::Uuid(video_id),
            SqlParamView::Uuid(viewer_id),
            SqlParamView::Int(secs),
            SqlParamView::Timestamp(played_at),
        ],
    }
}

/// Stores a view of a video by a user, played for `secs` seconds.
pub fn view_insert(video_id: u128, viewer_id: u128, secs: i32, played_at: Instant) -> (stmt: SqlStatement)
    ensures
        stmt@ == view_insert_spec(video_id, viewer_id, secs, played_at),
{
    with_four_params(
        "\n                    insert into views(video_id, user_id, time_played, created_at) \n                    values ($1, $2, $3, $4)\n                    ",
        SqlParam::Uuid(video_id),
        SqlParam::Uuid(viewer_id),
        SqlParam::Int(secs),
        SqlParam::Timestamp(played_at),
    )
}

/// With id lists of the generated sizes, the stored videos take the first
/// video ids, and a view never misses its video or its user: the capped
/// offsets always land inside the lists, whatever was sampled.
pub proof fn law_views_always_find_their_ids(
    c: CatalogView,
    video_offset: usize,
    viewer_offset: usize,
)
    requires
        c.videos.len() == VIDEO_ID_COUNT,
        c.users.len() == USER_ID_COUNT,
    ensures
        VIDEOS <= VIDEO_ID_COUNT,
        view_target_spec(c, video_offset, viewer_offset) != Err::<ViewTarget, SeedError>(
            SeedError::UnknownVideo,
        ),
        view_target_spec(c, video_offset, viewer_offset) != Err::<ViewTarget, SeedError>(
            SeedError::UnknownUser,
        ),
{
}

} // verus!
