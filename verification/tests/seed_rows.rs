use postgres_talk::seeds::{
    log_insert, post_insert, user_insert, video_insert, view_insert, BODY_WORDS_END,
    BODY_WORDS_MIN, LOG_ROWS, LOG_WORDS_END, LOG_WORDS_MIN, PLAY_SECS_END, POSTS_PER_USER,
    RLS_USERS, TITLE_WORDS_END, TITLE_WORDS_MIN, USER_ID_COUNT, VIDEOS, VIDEO_ID_COUNT, VIEWS,
    VISITORS,
};
use postgres_talk::sql::SqlParam;
use postgres_talk::time::Instant;

#[test]
fn seed_sizes() {
    assert_eq!(LOG_ROWS, 100_000);
    assert_eq!((LOG_WORDS_MIN, LOG_WORDS_END), (10, 20));
    assert_eq!((RLS_USERS, POSTS_PER_USER), (10, 10));
    assert_eq!((TITLE_WORDS_MIN, TITLE_WORDS_END), (2, 10));
    assert_eq!((BODY_WORDS_MIN, BODY_WORDS_END), (20, 50));
    assert_eq!(VISITORS, 100_000);
    assert_eq!((VIDEO_ID_COUNT, USER_ID_COUNT), (100, 10_000));
    assert_eq!((VIDEOS, VIEWS, PLAY_SECS_END), (100, 100_000, 600));
}

#[test]
fn log_and_post_rows() {
    let t = Instant { secs: 5, nanos: 6 };
    let log = log_insert("a b".to_string(), t);
    assert_eq!(log.sql, "insert into logs(message, created_at) values($1, $2)");
    assert_eq!(log.params, vec![SqlParam::Text("a b".to_string()), SqlParam::Timestamp(t)]);
    let user = user_insert("hacker".to_string());
    assert_eq!(user.sql, "insert into users(handle) values($1) returning id");
    assert_eq!(user.params, vec![SqlParam::Text("hacker".to_string())]);
    let post = post_insert(3, "t".to_string(), "b\nc".to_string());
    assert_eq!(post.sql, "insert into posts(user_id,title, body) values($1, $2, $3)");
    assert_eq!(
        post.params,
        vec![SqlParam::BigInt(3), SqlParam::Text("t".to_string()), SqlParam::Text("b\nc".to_string())]
    );
}

#[test]
fn video_and_view_rows() {
    let t = Instant { secs: 1, nanos: 0 };
    let video = video_insert(10, 20, t);
    assert!(video.sql.contains("insert into videos(id, creator_id, created_at)"));
    assert!(video.sql.contains("values ($1, $2, $3)"));
    assert_eq!(video.params, vec![SqlParam::Uuid(10), SqlParam::Uuid(20), SqlParam::Timestamp(t)]);
    let view = view_insert(10, 30, 599, t);
    assert!(view.sql.contains("insert into views(video_id, user_id, time_played, created_at)"));
    assert!(view.sql.contains("values ($1, $2, $3, $4)"));
    assert_eq!(
        view.params,
        vec![SqlParam::Uuid(10), SqlParam::Uuid(30), SqlParam::Int(599), SqlParam::Timestamp(t)]
    );
}
