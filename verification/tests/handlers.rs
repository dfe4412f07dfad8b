use crustchan::auth::{cookie_authn_at, login, user_id_of, AuthnToken};
use crustchan::clock::UtcTime;
use crustchan::handlers::{
    accepted_post_response, apply_dimensions, apply_file_upload, record_dimensions, apply_form_field, ban_handler, finalize_post,
    health_handler, login_handler, upload_failure_response, PostOutcome, UploadFailure,
    INITIAL_ADMIN_PASSWORD,
};
use crustchan::models::{Admin, Post};
use crustchan::rejections::{InvalidLogin, InvalidUser};
use crustchan::response::{ApiError, GenericResponse};
use crustchan::signing::KeyPair;

#[test]
fn form_fields_fill_the_post() {
    let mut p = Post::default();
    apply_form_field(&mut p, "subject", "Hello".to_string());
    apply_form_field(&mut p, "text", "World".to_string());
    apply_form_field(&mut p, "board_id", "b".to_string());
    apply_form_field(&mut p, "name", "Bob".to_string());
    apply_form_field(&mut p, "op", "123".to_string());
    apply_form_field(&mut p, "poster", "ignored".to_string());
    apply_form_field(&mut p, "board", "ignored".to_string());
    assert_eq!(p.subject, "Hello");
    assert_eq!(p.text, "World");
    assert_eq!(p.board_id, "b");
    assert_eq!(p.poster, "Bob");
    assert_eq!(p.op, "123");
}

#[test]
fn uploads_are_recorded() {
    let mut p = Post::default();
    apply_file_upload(&mut p, "cat.png".to_string(), 1234);
    apply_dimensions(&mut p, 640, 480);
    assert_eq!(p.file, "/tmp/uploads/cat.png");
    assert_eq!(p.file_name, "cat.png");
    assert_eq!(p.file_original_name, "cat.png");
    assert_eq!(p.file_size, 1234);
    assert_eq!(p.file_dimensions, "640x480");
}

#[test]
fn upload_failures_are_server_errors() {
    let r = upload_failure_response(UploadFailure::CreateDir);
    assert_eq!(r.status_code, 500);
    assert_eq!(r.message, "\"Failed to create files dir\"");
    let r = upload_failure_response(UploadFailure::SaveFile);
    assert_eq!(r.message, "\"Failed to save file\"");
}

fn form(board: &str, text: &str, poster: &str, op: &str) -> Post {
    let mut p = Post::default();
    p.board_id = board.to_string();
    p.text = text.to_string();
    p.poster = poster.to_string();
    p.op = op.to_string();
    p
}

#[test]
fn post_without_board_is_refused() {
    match finalize_post(form("", "text", "", ""), "1.1.1.1:80".to_string()) {
        PostOutcome::Reply(r) => {
            assert_eq!(r.status_code, 400);
            assert_eq!(r.message, "\"Board must be supplied\"");
        }
        _ => panic!("expected a reply"),
    }
}

#[test]
fn post_without_text_is_rejected() {
    assert!(matches!(finalize_post(form("b", "", "x", "y"), "ip".to_string()), PostOutcome::Rejected));
}

#[test]
fn post_gets_defaults() {
    match finalize_post(form("b", "hi", "", ""), "1.2.3.4:5".to_string()) {
        PostOutcome::Ready(p) => {
            assert_eq!(p.poster, "Anonymous");
            assert_eq!(p.op, "NULL");
            assert_eq!(p.ip, "1.2.3.4:5");
            assert_eq!(p.text, "hi");
        }
        _ => panic!("expected a post"),
    }
    match finalize_post(form("b", "hi", "Bob", "7"), "ip".to_string()) {
        PostOutcome::Ready(p) => {
            assert_eq!(p.poster, "Bob");
            assert_eq!(p.op, "7");
        }
        _ => panic!("expected a post"),
    }
}

#[test]
fn fixed_answers() {
    let r = ban_handler();
    assert_eq!(r.status_code, 200);
    assert_eq!(r.message, "\"lel ban em all\"");
    let h = health_handler();
    assert_eq!(h.status_code, 200);
    assert_eq!(h.message, "{\"status\": \"ok\"}");
    assert_eq!(INITIAL_ADMIN_PASSWORD, "changeme");
}

#[test]
fn responses_and_errors() {
    let r = GenericResponse::new(201, "a \"quoted\" word\n");
    assert_eq!(r.status_code, 201);
    assert_eq!(r.message, "\"a \\\"quoted\\\" word\\n\"");
    let r = GenericResponse::new_from_string(200, "raw".to_string());
    assert_eq!(r.message, "raw");
    let d = GenericResponse::default();
    assert_eq!((d.status_code, d.message.as_str()), (200, ""));
    let e = ApiError::new(404, "x".to_string());
    assert_eq!((e.status_code, e.message.as_str()), (404, "x"));
    let d = ApiError::default();
    assert_eq!((d.status_code, d.message.as_str()), (200, ""));
}

fn admin() -> Admin {
    Admin {
        id: "17".to_string(),
        username: "admin".to_string(),
        password: "h".to_string(),
        created_at: UtcTime { secs: 0, nanos: 0 },
    }
}

#[test]
fn login_answers() {
    let kp = KeyPair::generate();
    assert_eq!(login_handler(Err(InvalidLogin), &kp).err(), Some(InvalidUser));
    let a = Admin::initial("h".to_string());
    let reply = login_handler(Ok(a.clone()), &kp).unwrap();
    assert_eq!(reply.response.status_code, 200);
    assert_eq!(reply.response.message, "Welcome back, admin");
    let cookie = reply.set_cookie.clone();
    assert!(cookie.starts_with("token="));
    assert!(cookie.ends_with(";Path=/;SameSite=Strict;Secure;HttpOnly"));
    let text = &cookie["token=".len()..cookie.len() - ";Path=/;SameSite=Strict;Secure;HttpOnly".len()];
    let token = AuthnToken::from_str(text).unwrap();
    assert_eq!(token.claims.user_id, user_id_of(&a.id));
    assert!(cookie_authn_at(text, &kp, token.claims.iat).is_ok());
    assert!(cookie_authn_at(text, &kp, token.claims.exp + 1).is_err());
}

#[test]
fn correct_credentials_log_in() {
    let kp = KeyPair::generate();
    let stored = admin();
    let result = login(stored.clone(), "admin", true);
    let reply = login_handler(result, &kp).unwrap();
    assert_eq!(reply.response.message, "Welcome back, admin");
    let wrong = login(stored, "admin", false);
    assert_eq!(login_handler(wrong, &kp).err(), Some(InvalidUser));
}

#[test]
fn accepted_post_is_created() {
    let r = accepted_post_response("{\"id\":\"x\"}".to_string());
    assert_eq!(r.status_code, 201);
    assert_eq!(r.message, "{\"id\":\"x\"}");
}

fn png_bytes(width: u32, height: u32) -> Vec<u8> {
    let img = image::RgbImage::new(width, height);
    let mut out = std::io::Cursor::new(Vec::new());
    img.write_to(&mut out, image::ImageFormat::Png).unwrap();
    out.into_inner()
}

#[test]
fn image_size_is_read_from_the_upload() {
    let bytes = png_bytes(3, 2);
    let mut p = Post::default();
    assert!(record_dimensions(&mut p, &bytes, "cat.png"));
    assert_eq!(p.file_dimensions, "3x2");
    let mut q = Post::default();
    q.file_dimensions = "old".to_string();
    assert!(!record_dimensions(&mut q, &bytes, "cat.txt"));
    assert!(!record_dimensions(&mut q, b"not an image", "cat.png"));
    assert!(!record_dimensions(&mut q, &bytes, "noextension"));
    assert_eq!(q.file_dimensions, "old");
}
