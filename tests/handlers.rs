use blogapi::error_handler::AppError;
use blogapi::ids::{micros_stamp, parse_id};
use blogapi::orm::{
    apply_blog_update, create_blog, create_comment, create_like, create_user, delete_blog,
    delete_comment, delete_like, delete_user, get_blog, get_comment, get_like, get_user,
    insert_blog, insert_like, insert_user, update_blog, update_comment, update_user,
};
use blogapi::routes::{
    create_blog_handler, create_comment_handler, create_like_handler, create_user_handler,
    delete_blog_by_id, delete_comment_handler, get_blog_by_id, get_comment_by_id,
    get_like_by_id, get_user_by_id, handle_result, update_blog_by_id, update_comment_handler,
    Payload,
};
use blogapi::store::Store;

const SAMPLE: &str = "550e8400-e29b-41d4-a716-446655440000";

fn hyphenated(v: u128) -> String {
    uuid::Uuid::from_u128(v).hyphenated().to_string()
}

fn store_with_user() -> (Store, u128) {
    let mut s = Store::new();
    let u = create_user(&mut s, "alice", "alice@example.com", "h4sh").unwrap();
    (s, u.id)
}

#[test]
fn parse_id_reads_hyphenated_uuid() {
    assert_eq!(parse_id(SAMPLE), Ok(0x550e8400_e29b_41d4_a716_446655440000u128));
    assert_eq!(parse_id("550e8400e29b41d4a716446655440000"), Ok(0x550e8400_e29b_41d4_a716_446655440000u128));
}

#[test]
fn parse_id_rejects_malformed_text() {
    assert_eq!(parse_id(""), Err(AppError::ValidationError));
    assert_eq!(parse_id("not-a-uuid"), Err(AppError::ValidationError));
    assert_eq!(parse_id("550e8400-e29b-41d4-a716-44665544000g"), Err(AppError::ValidationError));
}

#[test]
fn error_statuses_and_messages() {
    assert_eq!(AppError::NotFound.status_code(), 404);
    assert_eq!(AppError::InternalServerError.status_code(), 500);
    assert_eq!(AppError::ValidationError.status_code(), 400);
    assert_eq!(AppError::NotFound.message(), "Not Found");
    assert_eq!(AppError::InternalServerError.message(), "Database error");
    assert_eq!(AppError::ValidationError.message(), "Bad Request");
}

#[test]
fn envelope_shapes() {
    let ok = handle_result(Ok(Payload::Empty));
    assert_eq!(ok.status, 200);
    assert_eq!(ok.body.status, "success");
    assert!(matches!(ok.body.data, Some(Payload::Empty)));
    assert!(ok.body.message.is_none());
    let err = handle_result(Err(AppError::InternalServerError));
    assert_eq!(err.status, 500);
    assert_eq!(err.body.status, "error");
    assert!(err.body.data.is_none());
    assert_eq!(err.body.message.as_deref(), Some("Database error"));
}

#[test]
fn created_ids_are_version_four() {
    let (mut s, uid) = store_with_user();
    assert_eq!((uid >> 76) & 0xf, 4);
    assert_eq!((uid >> 62) & 0x3, 2);
    let b = create_blog(&mut s, "T", "C", uid).unwrap();
    assert_ne!(b.id, uid);
    assert_eq!((b.id >> 76) & 0xf, 4);
}

#[test]
fn create_then_get_user() {
    let mut s = Store::new();
    let u = create_user(&mut s, "bob", "bob@example.com", "pw").unwrap();
    assert_eq!(u.username, "bob");
    assert_eq!(u.email, "bob@example.com");
    assert_eq!(u.password_hash, "pw");
    assert!(u.created_at > 0);
    assert_eq!(get_user(&s, u.id), Ok(u));
}

#[test]
fn create_then_get_blog_comment_like() {
    let (mut s, uid) = store_with_user();
    let b = create_blog(&mut s, "Title", "Body", uid).unwrap();
    assert_eq!(get_blog(&s, b.id), Ok(b.clone()));
    let c = create_comment(&mut s, b.id, uid, "nice", None).unwrap();
    assert_eq!(c.content, "nice");
    assert_eq!(c.parent_comment_id, None);
    assert_eq!(get_comment(&s, c.id), Ok(c.clone()));
    let reply = create_comment(&mut s, b.id, uid, "reply", Some(c.id)).unwrap();
    assert_eq!(reply.parent_comment_id, Some(c.id));
    let l = create_like(&mut s, b.id, uid).unwrap();
    assert_eq!(l.blog_id, b.id);
    assert_eq!(l.user_id, uid);
    assert_eq!(get_like(&s, l.id), Ok(l));
}

#[test]
fn insert_with_given_id_and_time() {
    let mut s = Store::new();
    let u = insert_user(&mut s, 7, 1_000, "u", "e", "p").unwrap();
    assert_eq!(u.id, 7);
    assert_eq!(u.created_at, 1_000);
    assert_eq!(insert_user(&mut s, 7, 2_000, "v", "f", "q"), Err(AppError::InternalServerError));
    assert_eq!(get_user(&s, 7).unwrap().username, "u");
    let b = insert_blog(&mut s, 9, 1_500, "T", "C", 7).unwrap();
    assert_eq!((b.created_at, b.updated_at), (1_500, 1_500));
    assert_eq!(insert_blog(&mut s, 9, 1_600, "T2", "C2", 7), Err(AppError::InternalServerError));
    let l = insert_like(&mut s, 11, 1_700, 9, 7).unwrap();
    assert_eq!(l.created_at, 1_700);
    let again = insert_like(&mut s, 12, 1_800, 9, 7).unwrap();
    assert_eq!(again.id, 12);
}

#[test]
fn references_must_exist() {
    let (mut s, uid) = store_with_user();
    assert_eq!(create_blog(&mut s, "T", "C", 12345), Err(AppError::InternalServerError));
    assert_eq!(create_comment(&mut s, 12345, uid, "x", None), Err(AppError::InternalServerError));
    let b = create_blog(&mut s, "T", "C", uid).unwrap();
    assert_eq!(create_comment(&mut s, b.id, 12345, "x", None), Err(AppError::InternalServerError));
    assert_eq!(create_like(&mut s, 12345, uid), Err(AppError::InternalServerError));
    assert_eq!(create_like(&mut s, b.id, 12345), Err(AppError::InternalServerError));
}

#[test]
fn missing_ids_are_not_found() {
    let s = Store::new();
    assert_eq!(get_user(&s, 1), Err(AppError::NotFound));
    assert_eq!(get_blog(&s, 1), Err(AppError::NotFound));
    assert_eq!(get_comment(&s, 1), Err(AppError::NotFound));
    assert_eq!(get_like(&s, 1), Err(AppError::NotFound));
}

#[test]
fn update_blog_moves_stamp_forward() {
    let (mut s, uid) = store_with_user();
    let b = create_blog(&mut s, "T", "C", uid).unwrap();
    let u = update_blog(&mut s, b.id, "T2", "C2").unwrap();
    assert_eq!(u.title, "T2");
    assert_eq!(u.content, "C2");
    assert_eq!(u.id, b.id);
    assert_eq!(u.author_id, b.author_id);
    assert_eq!(u.created_at, b.created_at);
    assert!(u.updated_at > b.updated_at);
    assert_eq!(get_blog(&s, b.id), Ok(u));
    assert_eq!(update_blog(&mut s, 1, "x", "y"), Err(AppError::NotFound));
}

#[test]
fn apply_blog_update_stamps() {
    let mut s = Store::new();
    insert_user(&mut s, 1, 10, "u", "e", "p").unwrap();
    insert_blog(&mut s, 2, 100, "T", "C", 1).unwrap();
    assert_eq!(apply_blog_update(&mut s, 2, 50, "a", "b").unwrap().updated_at, 101);
    assert_eq!(apply_blog_update(&mut s, 2, 500, "a", "b").unwrap().updated_at, 500);
    assert_eq!(apply_blog_update(&mut s, 3, 500, "a", "b"), Err(AppError::NotFound));
    insert_blog(&mut s, 4, i64::MAX, "T", "C", 1).unwrap();
    assert_eq!(apply_blog_update(&mut s, 4, 0, "a", "b"), Err(AppError::InternalServerError));
    assert_eq!(get_blog(&s, 4).unwrap().title, "T");
}

#[test]
fn update_user_and_comment() {
    let (mut s, uid) = store_with_user();
    let u = update_user(&mut s, uid, "carol", "c@example.com").unwrap();
    assert_eq!(u.username, "carol");
    assert_eq!(u.password_hash, "h4sh");
    assert_eq!(update_user(&mut s, 1, "x", "y"), Err(AppError::NotFound));
    let b = create_blog(&mut s, "T", "C", uid).unwrap();
    let c = create_comment(&mut s, b.id, uid, "first", None).unwrap();
    let c2 = update_comment(&mut s, c.id, "second").unwrap();
    assert_eq!(c2.content, "second");
    assert_eq!(c2.created_at, c.created_at);
    assert_eq!(get_comment(&s, c.id), Ok(c2));
    assert_eq!(update_comment(&mut s, 1, "x"), Err(AppError::NotFound));
}

#[test]
fn delete_then_get_is_not_found() {
    let (mut s, uid) = store_with_user();
    let b = create_blog(&mut s, "T", "C", uid).unwrap();
    let c = create_comment(&mut s, b.id, uid, "x", None).unwrap();
    let l = create_like(&mut s, b.id, uid).unwrap();
    assert_eq!(delete_like(&mut s, l.id), Ok(1));
    assert_eq!(get_like(&s, l.id), Err(AppError::NotFound));
    assert_eq!(delete_comment(&mut s, c.id), Ok(1));
    assert_eq!(get_comment(&s, c.id), Err(AppError::NotFound));
    assert_eq!(delete_blog(&mut s, b.id), Ok(1));
    assert_eq!(get_blog(&s, b.id), Err(AppError::NotFound));
    assert_eq!(delete_user(&mut s, uid), Ok(1));
    assert_eq!(get_user(&s, uid), Err(AppError::NotFound));
}

#[test]
fn delete_absent_counts_zero() {
    let (mut s, uid) = store_with_user();
    assert_eq!(delete_blog(&mut s, 1), Ok(0));
    assert_eq!(delete_comment(&mut s, 1), Ok(0));
    assert_eq!(delete_like(&mut s, 1), Ok(0));
    assert_eq!(delete_user(&mut s, 1), Ok(0));
    assert!(get_user(&s, uid).is_ok());
}

#[test]
fn post_blog_scenario() {
    let (mut s, uid) = store_with_user();
    let r = create_blog_handler(&mut s, "T", "C", &hyphenated(uid));
    assert_eq!(r.status, 200);
    assert_eq!(r.body.status, "success");
    assert!(r.body.message.is_none());
    match r.body.data {
        Some(Payload::Blog(b)) => {
            assert_eq!(b.title, "T");
            assert_eq!(b.content, "C");
            assert_eq!(b.author_id, uid);
            assert_ne!(b.id, uid);
            assert_eq!((b.id >> 76) & 0xf, 4);
            assert_eq!(b.created_at, b.updated_at);
            let got = get_blog_by_id(&s, &hyphenated(b.id));
            assert_eq!(got.status, 200);
            assert!(matches!(got.body.data, Some(Payload::Blog(g)) if g == b));
        }
        _ => panic!("expected a blog"),
    }
}

#[test]
fn get_unknown_comment_is_404() {
    let (mut s, uid) = store_with_user();
    let b = create_blog(&mut s, "T", "C", uid).unwrap();
    create_comment(&mut s, b.id, uid, "x", None).unwrap();
    let r = get_comment_by_id(&s, "9b2f5c1e-3d4a-4f6b-8c7d-0e1f2a3b4c5d");
    assert_eq!(r.status, 404);
    assert_eq!(r.body.status, "error");
    assert_eq!(r.body.message.as_deref(), Some("Not Found"));
    assert!(r.body.data.is_none());
}

#[test]
fn handlers_reject_malformed_ids() {
    let (mut s, uid) = store_with_user();
    assert_eq!(get_user_by_id(&s, "42").status, 400);
    assert_eq!(get_blog_by_id(&s, "x").status, 400);
    assert_eq!(get_like_by_id(&s, "").status, 400);
    assert_eq!(create_blog_handler(&mut s, "T", "C", "nope").status, 400);
    assert_eq!(delete_blog_by_id(&mut s, "nope").status, 400);
    assert_eq!(update_comment_handler(&mut s, "nope", "c").status, 400);
    let r = create_comment_handler(&mut s, "nope", &hyphenated(uid), "c", None);
    assert_eq!(r.status, 400);
    assert_eq!(r.body.message.as_deref(), Some("Bad Request"));
    assert_eq!(create_like_handler(&mut s, "nope", &hyphenated(uid)).status, 400);
}

#[test]
fn handler_round_trip() {
    let mut s = Store::new();
    let r = create_user_handler(&mut s, "dan", "d@example.com", "pw");
    let uid = match r.body.data {
        Some(Payload::User(u)) => u.id,
        _ => panic!("expected a user"),
    };
    let u = hyphenated(uid);
    assert_eq!(get_user_by_id(&s, &u).status, 200);
    let bid = match create_blog_handler(&mut s, "T", "C", &u).body.data {
        Some(Payload::Blog(b)) => hyphenated(b.id),
        _ => panic!("expected a blog"),
    };
    let upd = update_blog_by_id(&mut s, &bid, "T2", "C2");
    assert!(matches!(upd.body.data, Some(Payload::Blog(ref b)) if b.title == "T2"));
    let cid = match create_comment_handler(&mut s, &bid, &u, "hi", None).body.data {
        Some(Payload::Comment(c)) => hyphenated(c.id),
        _ => panic!("expected a comment"),
    };
    assert_eq!(update_comment_handler(&mut s, &cid, "yo").status, 200);
    let lid = match create_like_handler(&mut s, &bid, &u).body.data {
        Some(Payload::Like(l)) => hyphenated(l.id),
        _ => panic!("expected a like"),
    };
    assert_eq!(get_like_by_id(&s, &lid).status, 200);
    assert_eq!(delete_comment_handler(&mut s, &cid).status, 200);
    assert_eq!(get_comment_by_id(&s, &cid).status, 404);
    assert_eq!(delete_blog_by_id(&mut s, &bid).status, 200);
    assert_eq!(get_blog_by_id(&s, &bid).status, 404);
    assert_eq!(update_blog_by_id(&mut s, &bid, "a", "b").status, 404);
}

#[test]
fn delete_absent_through_handler_is_200() {
    let mut s = Store::new();
    let r = delete_blog_by_id(&mut s, SAMPLE);
    assert_eq!(r.status, 200);
    assert_eq!(r.body.status, "success");
    assert_eq!(delete_comment_handler(&mut s, SAMPLE).status, 200);
}

#[test]
fn create_with_unknown_author_is_500() {
    let mut s = Store::new();
    let r = create_blog_handler(&mut s, "T", "C", SAMPLE);
    assert_eq!(r.status, 500);
    assert_eq!(r.body.message.as_deref(), Some("Database error"));
}

#[test]
fn put_existing_blog_answers_200_with_new_fields() {
    let (mut s, uid) = store_with_user();
    let b = create_blog(&mut s, "T", "C", uid).unwrap();
    let r = update_blog_by_id(&mut s, &hyphenated(b.id), "T2", "C2");
    assert_eq!(r.status, 200);
    assert_eq!(r.body.status, "success");
    match r.body.data {
        Some(Payload::Blog(d)) => {
            assert_eq!(d.id, b.id);
            assert_eq!(d.title, "T2");
            assert_eq!(d.content, "C2");
            assert_eq!(d.author_id, b.author_id);
            assert_eq!(d.created_at, b.created_at);
            assert!(d.updated_at > b.updated_at);
        }
        _ => panic!("expected a blog"),
    }
}

#[test]
fn liking_twice_adds_two_likes() {
    let (mut s, uid) = store_with_user();
    let b = create_blog(&mut s, "T", "C", uid).unwrap();
    let first = create_like(&mut s, b.id, uid).unwrap();
    let second = create_like(&mut s, b.id, uid).unwrap();
    assert_ne!(first.id, second.id);
    assert_eq!(get_like(&s, first.id), Ok(first));
    assert_eq!(get_like(&s, second.id), Ok(second));
}

#[test]
fn micros_stamp_signs_and_clamps() {
    assert_eq!(micros_stamp(true, 0), 0);
    assert_eq!(micros_stamp(true, 1_700_000_000_000_000), 1_700_000_000_000_000);
    assert_eq!(micros_stamp(false, 5), -5);
    assert_eq!(micros_stamp(true, i64::MAX as u128), i64::MAX);
    assert_eq!(micros_stamp(false, i64::MAX as u128), -i64::MAX);
    assert_eq!(micros_stamp(true, u128::MAX), i64::MAX);
    assert_eq!(micros_stamp(false, 1u128 << 63), i64::MIN);
}

#[test]
fn created_at_reads_the_clock() {
    let before = std::time::SystemTime::now()
        .duration_since(std::time::UNIX_EPOCH)
        .unwrap()
        .as_micros() as i64;
    let mut s = Store::new();
    let u = create_user(&mut s, "eve", "e@example.com", "pw").unwrap();
    let after = std::time::SystemTime::now()
        .duration_since(std::time::UNIX_EPOCH)
        .unwrap()
        .as_micros() as i64;
    assert!(before <= u.created_at && u.created_at <= after);
}

#[test]
fn parse_id_rejects_wrong_lengths() {
    assert_eq!(parse_id("550e8400-e29b-41d4-a716-4466554400000"), Err(AppError::ValidationError));
    assert_eq!(parse_id("{550e8400-e29b-41d4-a716-446655440000}"), Ok(0x550e8400_e29b_41d4_a716_446655440000u128));
}
