use crustchan::clock::UtcTime;
use crustchan::models::{Admin, AttrValue, EventError, Post, PostEvent, PostInput};
use crustchan::rejections::ConversionError;

fn post(id: &str) -> Post {
    Post {
        id: id.to_string(),
        subject: "s".to_string(),
        text: "t".to_string(),
        board_id: "b".to_string(),
        poster: "p".to_string(),
        file: "f".to_string(),
        ip: "1.2.3.4".to_string(),
        deleted: false,
        soft_banned: true,
        approved: false,
        rejected: false,
        locked: true,
        sticky: false,
        public_banned: None,
        op: "NULL".to_string(),
        file_name: "n".to_string(),
        file_size: 2048,
        file_dimensions: "1x2".to_string(),
        file_original_name: "o".to_string(),
        created_at: UtcTime { secs: 0, nanos: 0 },
    }
}

#[test]
fn default_post_is_fresh() {
    let p = Post::default();
    assert_eq!(p.id.len(), 36);
    assert_eq!(p.op, "NULL");
    assert!(p.subject.is_empty() && p.text.is_empty() && p.board_id.is_empty());
    assert!(p.poster.is_empty() && p.file.is_empty() && p.ip.is_empty());
    assert!(!p.deleted && !p.soft_banned && !p.approved && !p.rejected && !p.locked && !p.sticky);
    assert_eq!(p.public_banned, None);
    assert_eq!(p.file_size, 0);
    assert!(p.created_at.secs > 1_600_000_000);
    assert!(p.created_at.nanos < 1_000_000_000);
    assert_ne!(Post::default().id, p.id);
}

#[test]
fn post_input_becomes_a_new_post() {
    let input = PostInput {
        subject: "hi".to_string(),
        text: "body".to_string(),
        board_id: "b".to_string(),
        poster: "me".to_string(),
        file: "/tmp/uploads/x.png".to_string(),
        op: Some("42".to_string()),
        file_name: "x.png".to_string(),
        file_size: 10,
        file_dimensions: "3x4".to_string(),
        file_original_name: "x.png".to_string(),
    };
    let p = input.into_post();
    assert_eq!(p.subject, "hi");
    assert_eq!(p.text, "body");
    assert_eq!(p.poster, "me");
    assert_eq!(p.op, "NULL");
    assert_eq!(p.ip, "");
    assert_eq!(p.file_size, 10);
    assert_eq!(p.file_dimensions, "3x4");
    assert_eq!(p.id.len(), 36);
}

#[test]
fn approve_and_reject_set_only_the_flag() {
    let mut p = post("a");
    p.reject();
    assert!(!p.approved && p.rejected);
    assert!(p.soft_banned && p.locked);
    p.approve();
    assert!(p.approved && !p.rejected);
    assert_eq!(p.subject, "s");
    assert!(p.soft_banned && p.locked);
    p.approve();
    assert!(p.approved && !p.rejected);
}

#[test]
fn post_item_names_each_field() {
    let mut p = post("a");
    p.public_banned = Some("spam".to_string());
    let item = p.to_item();
    assert_eq!(item.len(), 18);
    let keys: Vec<&str> = item.iter().map(|(k, _)| k.as_str()).collect();
    assert_eq!(
        keys,
        vec![
            "subject", "text", "poster", "board_id", "ip", "file", "deleted", "soft_banned",
            "locked", "approved", "sticky", "public_banned", "op", "file_name", "file_size",
            "file_dimensions", "file_original_name", "created_at"
        ]
    );
    assert!(!keys.contains(&"id"));
    assert!(matches!(&item[0].1, AttrValue::S(s) if s == "s"));
    assert!(matches!(&item[7].1, AttrValue::Bool(true)));
    assert!(matches!(&item[11].1, AttrValue::S(s) if s == "spam"));
    assert!(matches!(&item[14].1, AttrValue::N(s) if s == "2048"));
    assert!(matches!(&item[17].1, AttrValue::S(s) if s == "1970-01-01 00:00:00 UTC"));
    let unbanned = post("b").to_item();
    assert!(matches!(&unbanned[11].1, AttrValue::S(s) if s.is_empty()));
}

#[test]
fn post_events_from_records() {
    let created = PostEvent::from_record("INSERT", Err(ConversionError), Ok(post("n"))).unwrap();
    assert!(matches!(&created, PostEvent::Created { item } if item.id == "n"));
    assert_eq!(created.id(), "n");
    let updated = PostEvent::from_record("MODIFY", Ok(post("o")), Ok(post("n"))).unwrap();
    assert!(matches!(&updated, PostEvent::Updated { old, new } if old.id == "o" && new.id == "n"));
    assert_eq!(updated.id(), "n");
    let deleted = PostEvent::from_record("REMOVE", Ok(post("o")), Err(ConversionError)).unwrap();
    assert_eq!(deleted.id(), "o");
    assert!(matches!(
        PostEvent::from_record("MODIFY", Err(ConversionError), Ok(post("n"))),
        Err(EventError::Conversion(ConversionError))
    ));
    assert!(matches!(
        PostEvent::from_record("INSERT", Ok(post("o")), Err(ConversionError)),
        Err(EventError::Conversion(ConversionError))
    ));
    let unknown = PostEvent::from_record("TTL", Ok(post("o")), Ok(post("n")));
    assert!(matches!(&unknown, Err(EventError::UnknownEventType(name)) if name == "TTL"));
    assert_eq!(unknown.unwrap_err().message(), "Unknown event type: TTL");
    assert_eq!(
        EventError::Conversion(ConversionError).message(),
        "The post image could not be converted"
    );
}

#[test]
fn initial_and_default_admin() {
    let a = Admin::initial("hash".to_string());
    assert_eq!(a.username, "admin");
    assert_eq!(a.password, "hash");
    assert_eq!(a.id.len(), 36);
    let d = Admin::default();
    assert!(d.username.is_empty() && d.password.is_empty());
    assert!(d.created_at.secs > 1_600_000_000);
}

fn is_uuid_v4_text(s: &str) -> bool {
    let b = s.as_bytes();
    b.len() == 36
        && b.iter().enumerate().all(|(i, c)| {
            if [8, 13, 18, 23].contains(&i) {
                *c == b'-'
            } else {
                c.is_ascii_digit() || (b'a'..=b'f').contains(c)
            }
        })
        && b[14] == b'4'
        && [b'8', b'9', b'a', b'b'].contains(&b[19])
}

#[test]
fn new_ids_are_uuid_v4_text() {
    for _ in 0..20 {
        assert!(is_uuid_v4_text(&Post::default().id));
        assert!(is_uuid_v4_text(&Admin::default().id));
        assert!(is_uuid_v4_text(&Admin::initial("h".to_string()).id));
    }
}
