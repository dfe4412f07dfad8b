//! The decisions of the request handlers: how a submitted form becomes a post, what the
//! fixed endpoints answer, and what a login answers.
use vstd::prelude::*;

use crate::auth::{account_user_id, user_id_of, AuthnToken, TOKEN_LIFETIME_SECS};
use crate::clock::MAX_UTC_SECS;
use crate::codec::{base64_decode, base64_encode, json_string};
use crate::encoding::{decimal, str_eq, u64_to_decimal};
use crate::imaging::{image_dimensions, image_dimensions_of};
use crate::models::{Admin, Post};
use crate::rejections::{InvalidLogin, InvalidUser};
use crate::response::{
    GenericResponse, STATUS_BAD_REQUEST, STATUS_CREATED, STATUS_INTERNAL_SERVER_ERROR, STATUS_OK,
};
use crate::signing::{ed25519_sign, KeyPair};

verus! {

/// The password of the administrator account the server creates when none exists.
pub const INITIAL_ADMIN_PASSWORD: &'static str = "changeme";

/// Applies a text field of the post form: `subject`, `text`, `board_id`, `op` and `name`
/// (the poster's name) set their field; any other field is ignored.
pub fn apply_form_field(post: &mut Post, name: &str, value: String)
    ensures
        name@ == "subject"@ ==> *final(post) == (Post { subject: value, ..*old(post) }),
        name@ == "text"@ ==> *final(post) == (Post { text: value, ..*old(post) }),
        name@ == "board_id"@ ==> *final(post) == (Post { board_id: value, ..*old(post) }),
        name@ == "name"@ ==> *final(post) == (Post { poster: value, ..*old(post) }),
        name@ == "op"@ ==> *final(post) == (Post { op: value, ..*old(post) }),
        name@ != "subject"@ && name@ != "text"@ && name@ != "board_id"@ && name@ != "name"@
            && name@ != "op"@ ==> *final(post) == *old(post),
{
    proof {
        reveal_strlit("subject");
        reveal_strlit("text");
        reveal_strlit("board_id");
        reveal_strlit("name");
        reveal_strlit("op");
        assert("subject"@[0] == 's' && "text"@[0] == 't' && "board_id"@[0] == 'b');
        assert("name"@[0] == 'n' && "op"@[0] == 'o');
    }
    if str_eq(name, "subject") {
        post.subject = value;
    } else if str_eq(name, "text") {
        post.text = value;
    } else if str_eq(name, "board_id") {
        post.board_id = value;
    } else if str_eq(name, "name") {
        post.poster = value;
    } else if str_eq(name, "op") {
        post.op = value;
    }
}

/// Records an uploaded file of `size` bytes named `filename`: it is saved as
/// `/tmp/uploads/<filename>`, and both names are the one given.
pub fn apply_file_upload(post: &mut Post, filename: String, size: u64)
    ensures
        *final(post) == (Post {
            file: final(post).file,
            file_name: filename,
            file_size: size,
            file_original_name: filename,
            ..*old(post)
        }),
        final(post).file@ == "/tmp/uploads/"@ + filename@,
{
    let mut path = String::from_str("/tmp/uploads/");
    path.append(filename.as_str());
    post.file = path;
    post.file_name = filename.clone();
    post.file_size = size;
    post.file_original_name = filename;
}

/// Records the pixel size of the uploaded image as `<width>x<height>`.
pub fn apply_dimensions(post: &mut Post, width: u32, height: u32)
    ensures
        *final(post) == (Post { file_dimensions: final(post).file_dimensions, ..*old(post) }),
        final(post).file_dimensions@ == decimal(width as nat) + "x"@ + decimal(height as nat),
{
    let mut dims = u64_to_decimal(width as u64);
    dims.append("x");
    let h = u64_to_decimal(height as u64);
    dims.append(h.as_str());
    post.file_dimensions = dims;
}

/// Reads the pixel size of the uploaded image `bytes`, whose format is taken from the
/// extension of `file_name`, and records it as `<width>x<height>`. Returns whether the size
/// could be read; when it could not, the post is left as it was.
pub fn record_dimensions(post: &mut Post, bytes: &[u8], file_name: &str) -> (ok: bool)
    ensures
        ok <==> image_dimensions(bytes@, file_name@) is Some,
        match image_dimensions(bytes@, file_name@) {
            Some((w, h)) => *final(post) == (Post {
                file_dimensions: final(post).file_dimensions,
                ..*old(post)
            }) && final(post).file_dimensions@ == decimal(w as nat) + "x"@ + decimal(h as nat),
            None => *final(post) == *old(post),
        },
{
    match image_dimensions_of(bytes, file_name) {
        Some((w, h)) => {
            apply_dimensions(post, w, h);
            true
        },
        None => false,
    }
}

/// A step of saving an upload that can fail.
#[derive(Debug, Clone, Copy, PartialEq, Eq, Structural)]
pub enum UploadFailure {
    /// The upload directory could not be created.
    CreateDir,
    /// The file could not be written.
    SaveFile,
}

/// The reply when saving an upload fails: a server error saying which step failed.
pub fn upload_failure_response(failure: UploadFailure) -> (r: GenericResponse)
    ensures
        r.status_code == STATUS_INTERNAL_SERVER_ERROR,
        r.message@ == json_string(
            match failure {
                UploadFailure::CreateDir => "Failed to create files dir"@,
                UploadFailure::SaveFile => "Failed to save file"@,
            },
        ),
{
    match failure {
        UploadFailure::CreateDir => GenericResponse::new(
            STATUS_INTERNAL_SERVER_ERROR,
            "Failed to create files dir",
        ),
        UploadFailure::SaveFile => GenericResponse::new(
            STATUS_INTERNAL_SERVER_ERROR,
            "Failed to save file",
        ),
    }
}

/// What becomes of a submitted post once its form has been read.
#[derive(Debug, Clone)]
pub enum PostOutcome {
    /// Refused with this reply.
    Reply(GenericResponse),
    /// Refused without a reply of its own (the request is rejected).
    Rejected,
    /// Accepted, to be stored as it is.
    Ready(Post),
}

/// Whether `done` is `p` completed as it is stored: sent from `ip`, signed `Anonymous` when
/// no name was given, with `op` set to `NULL` when none was given, and otherwise unchanged.
pub open spec fn is_completed(done: Post, p: Post, ip: String) -> bool {
    &&& done == (Post { ip: done.ip, poster: done.poster, op: done.op, ..p })
    &&& done.ip == ip
    &&& if p.poster@.len() == 0 {
        done.poster@ == "Anonymous"@
    } else {
        done.poster == p.poster
    }
    &&& if p.op@.len() == 0 {
        done.op@ == "NULL"@
    } else {
        done.op == p.op
    }
}

/// A completed post is the submitted one with only the sender, the poster and `op` filled
/// in: its id, subject, text, board, file fields, flags, ban and creation time are the
/// submitted ones; the sender is `ip`; a missing poster becomes `Anonymous` and a missing
/// `op` becomes `NULL`, while given ones are kept.
pub proof fn lemma_completed_post_keeps_submission(done: Post, p: Post, ip: String)
    requires
        is_completed(done, p, ip),
    ensures
        done.id == p.id,
        done.subject == p.subject,
        done.text == p.text,
        done.board_id == p.board_id,
        done.file == p.file,
        done.deleted == p.deleted && done.soft_banned == p.soft_banned,
        done.approved == p.approved && done.rejected == p.rejected,
        done.locked == p.locked && done.sticky == p.sticky,
        done.public_banned == p.public_banned,
        done.file_name == p.file_name,
        done.file_size == p.file_size,
        done.file_dimensions == p.file_dimensions,
        done.file_original_name == p.file_original_name,
        done.created_at == p.created_at,
        done.ip == ip,
        p.poster@.len() != 0 ==> done.poster == p.poster,
        p.poster@.len() == 0 ==> done.poster@ == "Anonymous"@,
        p.op@.len() != 0 ==> done.op == p.op,
        p.op@.len() == 0 ==> done.op@ == "NULL"@,
{
}

/// Decides on a submitted post sent from `ip`: without a board it is refused with a
/// `400` saying so, without text it is rejected, and otherwise it is completed (see
/// `is_completed`) and accepted, to be answered with `accepted_post_response`.
pub fn finalize_post(post: Post, ip: String) -> (res: PostOutcome)
    ensures
        post.board_id@.len() == 0 ==> (res matches PostOutcome::Reply(r) && r.status_code
            == STATUS_BAD_REQUEST && r.message@ == json_string("Board must be supplied"@)),
        post.board_id@.len() != 0 && post.text@.len() == 0 ==> res is Rejected,
        post.board_id@.len() != 0 && post.text@.len() != 0 ==> (res matches PostOutcome::Ready(p)
            && is_completed(p, post, ip)),
        res matches PostOutcome::Ready(p) ==> {
            &&& p.id == post.id
            &&& p.subject == post.subject
            &&& p.text == post.text
            &&& p.board_id == post.board_id
            &&& p.file == post.file
            &&& p.deleted == post.deleted
            &&& p.soft_banned == post.soft_banned
            &&& p.approved == post.approved
            &&& p.rejected == post.rejected
            &&& p.locked == post.locked
            &&& p.sticky == post.sticky
            &&& p.public_banned == post.public_banned
            &&& p.file_name == post.file_name
            &&& p.file_size == post.file_size
            &&& p.file_dimensions == post.file_dimensions
            &&& p.file_original_name == post.file_original_name
            &&& p.created_at == post.created_at
            &&& p.ip == ip
            &&& (post.poster@.len() != 0 ==> p.poster == post.poster)
            &&& (post.poster@.len() == 0 ==> p.poster@ == "Anonymous"@)
            &&& (post.op@.len() != 0 ==> p.op == post.op)
            &&& (post.op@.len() == 0 ==> p.op@ == "NULL"@)
        },
{
    let mut post = post;
    post.ip = ip;
    if post.board_id.as_str().is_empty() {
        return PostOutcome::Reply(GenericResponse::new(STATUS_BAD_REQUEST, "Board must be supplied"));
    }
    if post.text.as_str().is_empty() {
        return PostOutcome::Rejected;
    }
    if post.poster.as_str().is_empty() {
        post.poster = String::from_str("Anonymous");
    }
    if post.op.as_str().is_empty() {
        post.op = String::from_str("NULL");
    }
    PostOutcome::Ready(post)
}

/// The answer to an accepted post once it is stored: `201 Created` with the stored post's
/// JSON text as the body.
pub fn accepted_post_response(post_json: String) -> (r: GenericResponse)
    ensures
        r.status_code == STATUS_CREATED,
        r.message@ == post_json@,
{
    GenericResponse::new_from_string(STATUS_CREATED, post_json)
}

/// The answer of the ban endpoint.
pub fn ban_handler() -> (r: GenericResponse)
    ensures
        r.status_code == STATUS_OK,
        r.message@ == json_string("lel ban em all"@),
{
    GenericResponse::new(STATUS_OK, "lel ban em all")
}

/// The answer of the health endpoint.
pub fn health_handler() -> (r: GenericResponse)
    ensures
        r.status_code == STATUS_OK,
        r.message@ == "{\"status\": \"ok\"}"@,
{
    GenericResponse::new_from_string(STATUS_OK, String::from_str("{\"status\": \"ok\"}"))
}

/// The answer to a successful login: a welcome and the session cookie.
#[derive(Debug, Clone)]
pub struct LoginReply {
    pub response: GenericResponse,
    pub set_cookie: String,
}

/// The answer to a login. A refused login is refused as an invalid user. A successful one
/// issues a token now with `keypair` for the account's user id (`account_user_id` of the
/// account's id) and sends it as the `Set-Cookie` value, with `Welcome back, <username>` as
/// the body.
pub fn login_handler(login_result: Result<Admin, InvalidLogin>, keypair: &KeyPair) -> (res: Result<
    LoginReply,
    InvalidUser,
>)
    ensures
        login_result is Err ==> res == Err::<LoginReply, InvalidUser>(InvalidUser),
        login_result is Ok ==> (res matches Ok(reply) && reply.response.status_code == STATUS_OK
            && reply.response.message@ == "Welcome back, "@ + login_result->Ok_0.username@
            && exists|t: AuthnToken|
            #![trigger t.bytes()]
            {
                &&& t.claims.user_id == account_user_id(login_result->Ok_0.id@)
                &&& 0 <= t.claims.iat <= MAX_UTC_SECS
                &&& t.claims.exp == t.claims.iat + TOKEN_LIFETIME_SECS
                &&& t.sig@ == ed25519_sign(keypair@, t.claims.digest())
                &&& t.wf()
                &&& reply.set_cookie@ == "token="@ + base64_encode(t.bytes())
                    + ";Path=/;SameSite=Strict;Secure;HttpOnly"@
                &&& base64_decode(base64_encode(t.bytes())) == Some(t.bytes())
            }),
{
    let admin = match login_result {
        Ok(a) => a,
        Err(_) => {
            return Err(InvalidUser);
        },
    };
    let uid = user_id_of(admin.id.as_str());
    match AuthnToken::from_user_id(uid, keypair) {
        Ok(token) => {
            let mut msg = String::from_str("Welcome back, ");
            msg.append(admin.username.as_str());
            let cookie = token.header_val();
            let reply = LoginReply {
                response: GenericResponse::new_from_string(STATUS_OK, msg),
                set_cookie: cookie,
            };
            assert(reply.set_cookie@ == "token="@ + base64_encode(token.bytes())
                + ";Path=/;SameSite=Strict;Secure;HttpOnly"@);
            Ok(reply)
        },
        Err(_) => Err(InvalidUser),
    }
}

/// A marker type of the post handlers; it carries nothing.
pub struct NotCopy;

/// The input of the listing of posts by address: the address.
#[derive(Debug, Clone)]
pub struct PostByIpInput {
    pub ip: String,
}

} // verus!
