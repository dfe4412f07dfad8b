//! The records the board stores: posts, admins, and the change events of the post table.
use vstd::prelude::*;

use crate::clock::{is_uuid_v4_text, new_uuid_string, utc_display, utc_now, utc_to_string, UtcTime};
use crate::encoding::{decimal, str_eq, u64_to_decimal};
use crate::rejections::ConversionError;

verus! {

/// A post on a board.
#[derive(Debug, Clone)]
pub struct Post {
    pub id: String,
    pub subject: String,
    pub text: String,
    pub board_id: String,
    pub poster: String,
    pub file: String,
    pub ip: String,
    pub deleted: bool,
    pub soft_banned: bool,
    pub approved: bool,
    /// Set when a moderator rejects the post, cleared when one approves it.
    pub rejected: bool,
    pub locked: bool,
    pub sticky: bool,
    pub public_banned: Option<String>,
    pub op: String,
    pub file_name: String,
    pub file_size: u64,
    pub file_dimensions: String,
    pub file_original_name: String,
    pub created_at: UtcTime,
}

/// What a poster supplies for a new post.
#[derive(Debug, Clone)]
pub struct PostInput {
    pub subject: String,
    pub text: String,
    pub board_id: String,
    pub poster: String,
    pub file: String,
    pub op: Option<String>,
    pub file_name: String,
    pub file_size: u64,
    pub file_dimensions: String,
    pub file_original_name: String,
}

/// An administrator account; `password` holds the password's hash.
#[derive(Debug, Clone)]
pub struct Admin {
    pub id: String,
    pub username: String,
    pub password: String,
    pub created_at: UtcTime,
}

/// Paging options of a listing.
#[derive(Debug, Clone, Copy, PartialEq, Eq, Structural)]
pub struct QueryOptions {
    pub page: Option<usize>,
    pub limit: Option<usize>,
}

impl Post {
    /// The fields every new post starts with: a random UUID as id, all text empty but `op`,
    /// which is `"NULL"`, every flag off, no ban, no file, and a creation time `chrono` can
    /// hold.
    pub open spec fn is_fresh(self) -> bool {
        &&& is_uuid_v4_text(self.id@)
        &&& self.subject@ == Seq::<char>::empty()
        &&& self.text@ == Seq::<char>::empty()
        &&& self.board_id@ == Seq::<char>::empty()
        &&& self.poster@ == Seq::<char>::empty()
        &&& self.file@ == Seq::<char>::empty()
        &&& self.ip@ == Seq::<char>::empty()
        &&& !self.deleted
        &&& !self.soft_banned
        &&& !self.approved
        &&& !self.rejected
        &&& !self.locked
        &&& !self.sticky
        &&& self.public_banned is None
        &&& self.op@ == "NULL"@
        &&& self.file_name@ == Seq::<char>::empty()
        &&& self.file_size == 0
        &&& self.file_dimensions@ == Seq::<char>::empty()
        &&& self.file_original_name@ == Seq::<char>::empty()
        &&& self.created_at.valid()
    }

    /// Marks the post approved by a moderator (and no longer rejected); nothing else changes.
    pub fn approve(&mut self)
        ensures
            *final(self) == (Post { approved: true, rejected: false, ..*old(self) }),
    {
        self.approved = true;
        self.rejected = false;
    }

    /// Marks the post rejected by a moderator (and no longer approved); nothing else changes.
    pub fn reject(&mut self)
        ensures
            *final(self) == (Post { approved: false, rejected: true, ..*old(self) }),
    {
        self.approved = false;
        self.rejected = true;
    }
}

impl Default for Post {
    /// A fresh post with a random UUID as id, created now.
    fn default() -> (p: Post)
        ensures
            p.is_fresh(),
    {
        Post {
            id: new_uuid_string(),
            subject: String::new(),
            text: String::new(),
            poster: String::new(),
            board_id: String::new(),
            ip: String::new(),
            file: String::new(),
            deleted: false,
            soft_banned: false,
            locked: false,
            approved: false,
            rejected: false,
            sticky: false,
            public_banned: None,
            op: String::from_str("NULL"),
            file_name: String::new(),
            file_size: 0,
            file_dimensions: String::new(),
            file_original_name: String::new(),
            created_at: utc_now(),
        }
    }
}

impl PostInput {
    /// The post made from this input, with a random UUID as id, created now. The input's `op` is not
    /// used: a new post's `op` is `"NULL"`.
    pub fn into_post(self) -> (p: Post)
        ensures
            p.subject == self.subject,
            p.text == self.text,
            p.board_id == self.board_id,
            p.poster == self.poster,
            p.file == self.file,
            p.ip@ == Seq::<char>::empty(),
            !p.deleted && !p.soft_banned && !p.approved && !p.rejected && !p.locked && !p.sticky,
            p.public_banned is None,
            p.op@ == "NULL"@,
            p.file_name == self.file_name,
            p.file_size == self.file_size,
            p.file_dimensions == self.file_dimensions,
            p.file_original_name == self.file_original_name,
            p.created_at.valid(),
            is_uuid_v4_text(p.id@),
    {
        Post {
            id: new_uuid_string(),
            subject: self.subject,
            text: self.text,
            board_id: self.board_id,
            poster: self.poster,
            file: self.file,
            ip: String::new(),
            deleted: false,
            soft_banned: false,
            approved: false,
            rejected: false,
            locked: false,
            sticky: false,
            public_banned: None,
            op: String::from_str("NULL"),
            file_name: self.file_name,
            file_size: self.file_size,
            file_dimensions: self.file_dimensions,
            file_original_name: self.file_original_name,
            created_at: utc_now(),
        }
    }
}

impl Admin {
    /// The administrator account the server creates when none exists: user name `admin`,
    /// with the given password hash, a random id, created now.
    pub fn initial(password: String) -> (a: Admin)
        ensures
            a.username@ == "admin"@,
            a.password == password,
            a.created_at.valid(),
            is_uuid_v4_text(a.id@),
    {
        Admin {
            id: new_uuid_string(),
            username: String::from_str("admin"),
            password: password,
            created_at: utc_now(),
        }
    }
}

impl Default for Admin {
    /// An account with empty user name and password, a random id, created now.
    fn default() -> (a: Admin)
        ensures
            a.username@ == Seq::<char>::empty(),
            a.password@ == Seq::<char>::empty(),
            a.created_at.valid(),
            is_uuid_v4_text(a.id@),
    {
        Admin {
            id: new_uuid_string(),
            username: String::new(),
            password: String::new(),
            created_at: utc_now(),
        }
    }
}

/// A value in a stored item: a string, a number written in decimal, or a flag.
#[derive(Debug, Clone)]
pub enum AttrValue {
    S(String),
    N(String),
    Bool(bool),
}

/// The mathematical value of an `AttrValue`.
pub enum AttrView {
    S(Seq<char>),
    N(Seq<char>),
    Bool(bool),
}

impl View for AttrValue {
    type V = AttrView;

    open spec fn view(&self) -> AttrView {
        match self {
            AttrValue::S(s) => AttrView::S(s@),
            AttrValue::N(s) => AttrView::N(s@),
            AttrValue::Bool(b) => AttrView::Bool(*b),
        }
    }
}

/// The stored item of a post: each field but the id under its own name, the ban reason as
/// an empty string when there is none, the size in decimal and the creation time as text.
pub open spec fn post_item(p: Post) -> Seq<(Seq<char>, AttrView)> {
    seq![
        ("subject"@, AttrView::S(p.subject@)),
        ("text"@, AttrView::S(p.text@)),
        ("poster"@, AttrView::S(p.poster@)),
        ("board_id"@, AttrView::S(p.board_id@)),
        ("ip"@, AttrView::S(p.ip@)),
        ("file"@, AttrView::S(p.file@)),
        ("deleted"@, AttrView::Bool(p.deleted)),
        ("soft_banned"@, AttrView::Bool(p.soft_banned)),
        ("locked"@, AttrView::Bool(p.locked)),
        ("approved"@, AttrView::Bool(p.approved)),
        ("sticky"@, AttrView::Bool(p.sticky)),
        ("public_banned"@, AttrView::S(
            match p.public_banned {
                Some(s) => s@,
                None => Seq::<char>::empty(),
            },
        )),
        ("op"@, AttrView::S(p.op@)),
        ("file_name"@, AttrView::S(p.file_name@)),
        ("file_size"@, AttrView::N(decimal(p.file_size as nat))),
        ("file_dimensions"@, AttrView::S(p.file_dimensions@)),
        ("file_original_name"@, AttrView::S(p.file_original_name@)),
        ("created_at"@, AttrView::S(utc_display(p.created_at.secs, p.created_at.nanos))),
    ]
}

/// The view of a stored item.
pub open spec fn item_view(item: Seq<(String, AttrValue)>) -> Seq<(Seq<char>, AttrView)> {
    item.map_values(|e: (String, AttrValue)| (e.0@, e.1@))
}

fn push_s(item: &mut Vec<(String, AttrValue)>, key: &str, value: String)
    ensures
        item_view(final(item)@) == item_view(old(item)@).push((key@, AttrView::S(value@))),
{
    item.push((String::from_str(key), AttrValue::S(value)));
    assert(item_view(item@) =~= item_view(old(item)@).push((key@, AttrView::S(value@))));
}

fn push_n(item: &mut Vec<(String, AttrValue)>, key: &str, value: String)
    ensures
        item_view(final(item)@) == item_view(old(item)@).push((key@, AttrView::N(value@))),
{
    item.push((String::from_str(key), AttrValue::N(value)));
    assert(item_view(item@) =~= item_view(old(item)@).push((key@, AttrView::N(value@))));
}

fn push_bool(item: &mut Vec<(String, AttrValue)>, key: &str, value: bool)
    ensures
        item_view(final(item)@) == item_view(old(item)@).push((key@, AttrView::Bool(value))),
{
    item.push((String::from_str(key), AttrValue::Bool(value)));
    assert(item_view(item@) =~= item_view(old(item)@).push((key@, AttrView::Bool(value))));
}

impl Post {
    /// The post as a stored item (field name and value pairs).
    pub fn to_item(self) -> (item: Vec<(String, AttrValue)>)
        requires
            self.created_at.valid(),
        ensures
            item_view(item@) == post_item(self),
            item@.len() == 18,
            item@[0].0@ == "subject"@ && item@[0].1@ == AttrView::S(self.subject@),
            item@[1].0@ == "text"@ && item@[1].1@ == AttrView::S(self.text@),
            item@[2].0@ == "poster"@ && item@[2].1@ == AttrView::S(self.poster@),
            item@[3].0@ == "board_id"@ && item@[3].1@ == AttrView::S(self.board_id@),
            item@[4].0@ == "ip"@ && item@[4].1@ == AttrView::S(self.ip@),
            item@[5].0@ == "file"@ && item@[5].1@ == AttrView::S(self.file@),
            item@[6].0@ == "deleted"@ && item@[6].1@ == AttrView::Bool(self.deleted),
            item@[7].0@ == "soft_banned"@ && item@[7].1@ == AttrView::Bool(self.soft_banned),
            item@[8].0@ == "locked"@ && item@[8].1@ == AttrView::Bool(self.locked),
            item@[9].0@ == "approved"@ && item@[9].1@ == AttrView::Bool(self.approved),
            item@[10].0@ == "sticky"@ && item@[10].1@ == AttrView::Bool(self.sticky),
            item@[11].0@ == "public_banned"@ && item@[11].1@ == AttrView::S(match self.public_banned { Some(s) => s@, None => Seq::<char>::empty() }),
            item@[12].0@ == "op"@ && item@[12].1@ == AttrView::S(self.op@),
            item@[13].0@ == "file_name"@ && item@[13].1@ == AttrView::S(self.file_name@),
            item@[14].0@ == "file_size"@ && item@[14].1@ == AttrView::N(decimal(self.file_size as nat)),
            item@[15].0@ == "file_dimensions"@ && item@[15].1@ == AttrView::S(self.file_dimensions@),
            item@[16].0@ == "file_original_name"@ && item@[16].1@ == AttrView::S(self.file_original_name@),
            item@[17].0@ == "created_at"@ && item@[17].1@ == AttrView::S(utc_display(self.created_at.secs, self.created_at.nanos)),
    {
        let ghost p = self;
        let mut item: Vec<(String, AttrValue)> = Vec::new();
        assert(item_view(item@) =~= Seq::<(Seq<char>, AttrView)>::empty());
        push_s(&mut item, "subject", self.subject);
        push_s(&mut item, "text", self.text);
        push_s(&mut item, "poster", self.poster);
        push_s(&mut item, "board_id", self.board_id);
        push_s(&mut item, "ip", self.ip);
        push_s(&mut item, "file", self.file);
        push_bool(&mut item, "deleted", self.deleted);
        push_bool(&mut item, "soft_banned", self.soft_banned);
        push_bool(&mut item, "locked", self.locked);
        push_bool(&mut item, "approved", self.approved);
        push_bool(&mut item, "sticky", self.sticky);
        let banned = match self.public_banned {
            Some(s) => s,
            None => String::new(),
        };
        push_s(&mut item, "public_banned", banned);
        push_s(&mut item, "op", self.op);
        push_s(&mut item, "file_name", self.file_name);
        push_n(&mut item, "file_size", u64_to_decimal(self.file_size));
        push_s(&mut item, "file_dimensions", self.file_dimensions);
        push_s(&mut item, "file_original_name", self.file_original_name);
        push_s(&mut item, "created_at", utc_to_string(self.created_at));
        assert(item_view(item@) =~= post_item(p));
        item
    }
}

/// Every field of a post is stored under a name of its own, and the id is not stored.
pub proof fn lemma_post_item_keys_distinct(p: Post)
    ensures
        post_item(p).len() == 18,
        forall|i: int, j: int|
            0 <= i < j < 18 ==> #[trigger] post_item(p)[i].0 != #[trigger] post_item(p)[j].0,
        forall|i: int| 0 <= i < 18 ==> #[trigger] post_item(p)[i].0 != "id"@,
{
    let item = post_item(p);
        reveal_strlit("subject");
        reveal_strlit("text");
        reveal_strlit("poster");
        reveal_strlit("board_id");
        reveal_strlit("ip");
        reveal_strlit("file");
        reveal_strlit("deleted");
        reveal_strlit("soft_banned");
        reveal_strlit("locked");
        reveal_strlit("approved");
        reveal_strlit("sticky");
        reveal_strlit("public_banned");
        reveal_strlit("op");
        reveal_strlit("file_name");
        reveal_strlit("file_size");
        reveal_strlit("file_dimensions");
        reveal_strlit("file_original_name");
        reveal_strlit("created_at");
        reveal_strlit("id");
    assert forall|i: int, j: int| 0 <= i < j < 18 implies item[i].0 != item[j].0 by {
        if item[i].0.len() == item[j].0.len() {
            assert(item[i].0[0] != item[j].0[0] || item[i].0[5] != item[j].0[5]);
        }
    }
    assert forall|i: int| 0 <= i < 18 implies item[i].0 != "id"@ by {
        if item[i].0.len() == 2 {
            assert(item[i].0[0] != 'i' || item[i].0[1] != 'd');
        }
    }
}

/// Each attribute of a stored post holds the post's field of the same name: whichever
/// position an attribute name stands at, the value there is that field's value (text as
/// a string, flags as flags, the size in decimal, no ban as an empty string, the creation
/// time as its text), and every field's name occurs.
pub proof fn lemma_post_item_holds_fields(p: Post)
    ensures
        post_item(p).len() == 18,
        forall|i: int|
            #![trigger post_item(p)[i]]
            0 <= i < 18 ==> {
            &&& ("subject"@ == post_item(p)[i].0 ==> post_item(p)[i].1 == AttrView::S(p.subject@))
            &&& ("text"@ == post_item(p)[i].0 ==> post_item(p)[i].1 == AttrView::S(p.text@))
            &&& ("poster"@ == post_item(p)[i].0 ==> post_item(p)[i].1 == AttrView::S(p.poster@))
            &&& ("board_id"@ == post_item(p)[i].0 ==> post_item(p)[i].1 == AttrView::S(p.board_id@))
            &&& ("ip"@ == post_item(p)[i].0 ==> post_item(p)[i].1 == AttrView::S(p.ip@))
            &&& ("file"@ == post_item(p)[i].0 ==> post_item(p)[i].1 == AttrView::S(p.file@))
            &&& ("deleted"@ == post_item(p)[i].0 ==> post_item(p)[i].1 == AttrView::Bool(p.deleted))
            &&& ("soft_banned"@ == post_item(p)[i].0 ==> post_item(p)[i].1 == AttrView::Bool(p.soft_banned))
            &&& ("locked"@ == post_item(p)[i].0 ==> post_item(p)[i].1 == AttrView::Bool(p.locked))
            &&& ("approved"@ == post_item(p)[i].0 ==> post_item(p)[i].1 == AttrView::Bool(p.approved))
            &&& ("sticky"@ == post_item(p)[i].0 ==> post_item(p)[i].1 == AttrView::Bool(p.sticky))
            &&& ("public_banned"@ == post_item(p)[i].0 ==> post_item(p)[i].1 == AttrView::S(match p.public_banned { Some(s) => s@, None => Seq::<char>::empty() }))
            &&& ("op"@ == post_item(p)[i].0 ==> post_item(p)[i].1 == AttrView::S(p.op@))
            &&& ("file_name"@ == post_item(p)[i].0 ==> post_item(p)[i].1 == AttrView::S(p.file_name@))
            &&& ("file_size"@ == post_item(p)[i].0 ==> post_item(p)[i].1 == AttrView::N(decimal(p.file_size as nat)))
            &&& ("file_dimensions"@ == post_item(p)[i].0 ==> post_item(p)[i].1 == AttrView::S(p.file_dimensions@))
            &&& ("file_original_name"@ == post_item(p)[i].0 ==> post_item(p)[i].1 == AttrView::S(p.file_original_name@))
            &&& ("created_at"@ == post_item(p)[i].0 ==> post_item(p)[i].1 == AttrView::S(utc_display(p.created_at.secs, p.created_at.nanos)))
            },
        post_item(p)[0].0 == "subject"@,
        post_item(p)[1].0 == "text"@,
        post_item(p)[2].0 == "poster"@,
        post_item(p)[3].0 == "board_id"@,
        post_item(p)[4].0 == "ip"@,
        post_item(p)[5].0 == "file"@,
        post_item(p)[6].0 == "deleted"@,
        post_item(p)[7].0 == "soft_banned"@,
        post_item(p)[8].0 == "locked"@,
        post_item(p)[9].0 == "approved"@,
        post_item(p)[10].0 == "sticky"@,
        post_item(p)[11].0 == "public_banned"@,
        post_item(p)[12].0 == "op"@,
        post_item(p)[13].0 == "file_name"@,
        post_item(p)[14].0 == "file_size"@,
        post_item(p)[15].0 == "file_dimensions"@,
        post_item(p)[16].0 == "file_original_name"@,
        post_item(p)[17].0 == "created_at"@,
{
    let item = post_item(p);
    reveal_strlit("subject");
    reveal_strlit("text");
    reveal_strlit("poster");
    reveal_strlit("board_id");
    reveal_strlit("ip");
    reveal_strlit("file");
    reveal_strlit("deleted");
    reveal_strlit("soft_banned");
    reveal_strlit("locked");
    reveal_strlit("approved");
    reveal_strlit("sticky");
    reveal_strlit("public_banned");
    reveal_strlit("op");
    reveal_strlit("file_name");
    reveal_strlit("file_size");
    reveal_strlit("file_dimensions");
    reveal_strlit("file_original_name");
    reveal_strlit("created_at");
    assert forall|i: int| 0 <= i < 18 implies {
        &&& ("subject"@ == post_item(p)[i].0 ==> post_item(p)[i].1 == AttrView::S(p.subject@))
        &&& ("text"@ == post_item(p)[i].0 ==> post_item(p)[i].1 == AttrView::S(p.text@))
        &&& ("poster"@ == post_item(p)[i].0 ==> post_item(p)[i].1 == AttrView::S(p.poster@))
        &&& ("board_id"@ == post_item(p)[i].0 ==> post_item(p)[i].1 == AttrView::S(p.board_id@))
        &&& ("ip"@ == post_item(p)[i].0 ==> post_item(p)[i].1 == AttrView::S(p.ip@))
        &&& ("file"@ == post_item(p)[i].0 ==> post_item(p)[i].1 == AttrView::S(p.file@))
        &&& ("deleted"@ == post_item(p)[i].0 ==> post_item(p)[i].1 == AttrView::Bool(p.deleted))
        &&& ("soft_banned"@ == post_item(p)[i].0 ==> post_item(p)[i].1 == AttrView::Bool(p.soft_banned))
        &&& ("locked"@ == post_item(p)[i].0 ==> post_item(p)[i].1 == AttrView::Bool(p.locked))
        &&& ("approved"@ == post_item(p)[i].0 ==> post_item(p)[i].1 == AttrView::Bool(p.approved))
        &&& ("sticky"@ == post_item(p)[i].0 ==> post_item(p)[i].1 == AttrView::Bool(p.sticky))
        &&& ("public_banned"@ == post_item(p)[i].0 ==> post_item(p)[i].1 == AttrView::S(match p.public_banned { Some(s) => s@, None => Seq::<char>::empty() }))
        &&& ("op"@ == post_item(p)[i].0 ==> post_item(p)[i].1 == AttrView::S(p.op@))
        &&& ("file_name"@ == post_item(p)[i].0 ==> post_item(p)[i].1 == AttrView::S(p.file_name@))
        &&& ("file_size"@ == post_item(p)[i].0 ==> post_item(p)[i].1 == AttrView::N(decimal(p.file_size as nat)))
        &&& ("file_dimensions"@ == post_item(p)[i].0 ==> post_item(p)[i].1 == AttrView::S(p.file_dimensions@))
        &&& ("file_original_name"@ == post_item(p)[i].0 ==> post_item(p)[i].1 == AttrView::S(p.file_original_name@))
        &&& ("created_at"@ == post_item(p)[i].0 ==> post_item(p)[i].1 == AttrView::S(utc_display(p.created_at.secs, p.created_at.nanos)))
    } by {
        lemma_post_item_keys_distinct(p);
        assert(item[0].0 == "subject"@);
        assert(item[1].0 == "text"@);
        assert(item[2].0 == "poster"@);
        assert(item[3].0 == "board_id"@);
        assert(item[4].0 == "ip"@);
        assert(item[5].0 == "file"@);
        assert(item[6].0 == "deleted"@);
        assert(item[7].0 == "soft_banned"@);
        assert(item[8].0 == "locked"@);
        assert(item[9].0 == "approved"@);
        assert(item[10].0 == "sticky"@);
        assert(item[11].0 == "public_banned"@);
        assert(item[12].0 == "op"@);
        assert(item[13].0 == "file_name"@);
        assert(item[14].0 == "file_size"@);
        assert(item[15].0 == "file_dimensions"@);
        assert(item[16].0 == "file_original_name"@);
        assert(item[17].0 == "created_at"@);
        if i == 0 {
            assert(item[i] == item[0]);
        } else if i == 1 {
            assert(item[i] == item[1]);
        } else if i == 2 {
            assert(item[i] == item[2]);
        } else if i == 3 {
            assert(item[i] == item[3]);
        } else if i == 4 {
            assert(item[i] == item[4]);
        } else if i == 5 {
            assert(item[i] == item[5]);
        } else if i == 6 {
            assert(item[i] == item[6]);
        } else if i == 7 {
            assert(item[i] == item[7]);
        } else if i == 8 {
            assert(item[i] == item[8]);
        } else if i == 9 {
            assert(item[i] == item[9]);
        } else if i == 10 {
            assert(item[i] == item[10]);
        } else if i == 11 {
            assert(item[i] == item[11]);
        } else if i == 12 {
            assert(item[i] == item[12]);
        } else if i == 13 {
            assert(item[i] == item[13]);
        } else if i == 14 {
            assert(item[i] == item[14]);
        } else if i == 15 {
            assert(item[i] == item[15]);
        } else if i == 16 {
            assert(item[i] == item[16]);
        } else if i == 17 {
            assert(item[i] == item[17]);
        }
    }
}

/// A change to the post table: a post created, a post changed (before and after), or a
/// post removed.
#[derive(Debug, Clone)]
pub enum PostEvent {
    Created { item: Post },
    Updated { old: Post, new: Post },
    Deleted { item: Post },
}

/// Why a change record could not be read as a post event.
#[derive(Debug, Clone)]
pub enum EventError {
    /// An image of the record did not convert to a post.
    Conversion(ConversionError),
    /// The record's event name is not `INSERT`, `MODIFY` or `REMOVE`; it is kept here.
    UnknownEventType(String),
}

impl EventError {
    /// The text of the error: `Unknown event type: <name>` for an unknown event name.
    pub fn message(&self) -> (m: String)
        ensures
            match self {
                EventError::UnknownEventType(name) => m@ == "Unknown event type: "@ + name@,
                EventError::Conversion(_) => m@ == "The post image could not be converted"@,
            },
    {
        match self {
            EventError::UnknownEventType(name) => {
                let mut m = String::from_str("Unknown event type: ");
                m.append(name.as_str());
                m
            },
            EventError::Conversion(_) => String::from_str("The post image could not be converted"),
        }
    }
}

impl PostEvent {
    /// The id of the post the event is about (the new version for a change).
    pub fn id(&self) -> (id: &str)
        ensures
            id@ == match self {
                PostEvent::Created { item } => item.id@,
                PostEvent::Updated { new, .. } => new.id@,
                PostEvent::Deleted { item } => item.id@,
            },
    {
        match self {
            PostEvent::Created { item } => item.id.as_str(),
            PostEvent::Updated { new, .. } => new.id.as_str(),
            PostEvent::Deleted { item } => item.id.as_str(),
        }
    }

    /// Reads a change record from its event name and its two images, each already converted
    /// to a post or not: `INSERT` takes the new image, `REMOVE` the old one, `MODIFY` both
    /// (a failure of the old one is reported first); any other name is refused.
    pub fn from_record(
        event_name: &str,
        old_image: Result<Post, ConversionError>,
        new_image: Result<Post, ConversionError>,
    ) -> (res: Result<PostEvent, EventError>)
        ensures
            event_name@ == "INSERT"@ ==> match new_image {
                Ok(p) => res == Ok::<PostEvent, EventError>(PostEvent::Created { item: p }),
                Err(e) => res == Err::<PostEvent, EventError>(EventError::Conversion(e)),
            },
            event_name@ == "MODIFY"@ ==> match (old_image, new_image) {
                (Ok(o), Ok(n)) => res == Ok::<PostEvent, EventError>(
                    PostEvent::Updated { old: o, new: n },
                ),
                (Err(e), _) => res == Err::<PostEvent, EventError>(EventError::Conversion(e)),
                (Ok(_), Err(e)) => res == Err::<PostEvent, EventError>(EventError::Conversion(e)),
            },
            event_name@ == "REMOVE"@ ==> match old_image {
                Ok(p) => res == Ok::<PostEvent, EventError>(PostEvent::Deleted { item: p }),
                Err(e) => res == Err::<PostEvent, EventError>(EventError::Conversion(e)),
            },
            event_name@ != "INSERT"@ && event_name@ != "MODIFY"@ && event_name@ != "REMOVE"@ ==> (
            res matches Err(EventError::UnknownEventType(name)) && name@ == event_name@),
    {
        proof {
            reveal_strlit("INSERT");
            reveal_strlit("MODIFY");
            reveal_strlit("REMOVE");
            assert("INSERT"@[0] != "MODIFY"@[0]);
            assert("INSERT"@[0] != "REMOVE"@[0]);
            assert("MODIFY"@ != "REMOVE"@);
        }
        if str_eq(event_name, "INSERT") {
            match new_image {
                Ok(p) => Ok(PostEvent::Created { item: p }),
                Err(e) => Err(EventError::Conversion(e)),
            }
        } else if str_eq(event_name, "MODIFY") {
            match old_image {
                Err(e) => Err(EventError::Conversion(e)),
                Ok(o) => match new_image {
                    Ok(n) => Ok(PostEvent::Updated { old: o, new: n }),
                    Err(e) => Err(EventError::Conversion(e)),
                },
            }
        } else if str_eq(event_name, "REMOVE") {
            match old_image {
                Ok(p) => Ok(PostEvent::Deleted { item: p }),
                Err(e) => Err(EventError::Conversion(e)),
            }
        } else {
            Err(EventError::UnknownEventType(String::from_str(event_name)))
        }
    }
}

} // verus!
