//! The reads the board makes of its tables: which table, index and key condition each one
//! uses, and what it binds. The requests themselves are sent by the server.
use vstd::prelude::*;

use crate::models::Admin;
use crate::rejections::InvalidUser;

verus! {

/// The kinds of table the board keeps.
pub const TABLES: [&'static str; 3] = ["posts", "boards", "admin"];

/// The table of posts.
pub const POSTS_TABLE_NAME: &'static str = "crustchan-posts";

/// The table of boards.
pub const BOARDS_TABLE_NAME: &'static str = "crustchan-boards";

/// The table of administrator accounts.
pub const ADMIN_TABLE_NAME: &'static str = "crustchan-admin";

/// A query or scan of one table.
#[derive(Debug, Clone)]
pub struct TableRead {
    pub table_name: String,
    pub index_name: Option<String>,
    pub key_condition_expression: Option<String>,
    /// Placeholder names of the key condition and the string each one stands for.
    pub expression_attribute_values: Vec<(String, String)>,
    /// The most items a scan returns, if limited.
    pub limit: Option<i64>,
}

/// The view of a read: table, index, condition, bound values and limit.
pub open spec fn read_view(r: TableRead) -> (
    Seq<char>,
    Option<Seq<char>>,
    Option<Seq<char>>,
    Seq<(Seq<char>, Seq<char>)>,
    Option<i64>,
) {
    (
        r.table_name@,
        match r.index_name {
            Some(s) => Some(s@),
            None => None,
        },
        match r.key_condition_expression {
            Some(s) => Some(s@),
            None => None,
        },
        r.expression_attribute_values@.map_values(|e: (String, String)| (e.0@, e.1@)),
        r.limit,
    )
}

fn keyed_query(table: &str, index: Option<&str>, condition: &str, placeholder: &str, value: String) -> (r: TableRead)
    ensures
        read_view(r) == (
            table@,
            match index {
                Some(i) => Some(i@),
                None => None::<Seq<char>>,
            },
            Some(condition@),
            seq![(placeholder@, value@)],
            None::<i64>,
        ),
{
    let mut values: Vec<(String, String)> = Vec::new();
    values.push((String::from_str(placeholder), value));
    let r = TableRead {
        table_name: String::from_str(table),
        index_name: match index {
            Some(i) => Some(String::from_str(i)),
            None => None,
        },
        key_condition_expression: Some(String::from_str(condition)),
        expression_attribute_values: values,
        limit: None,
    };
    assert(r.expression_attribute_values@.map_values(|e: (String, String)| (e.0@, e.1@))
        =~= seq![(placeholder@, value@)]);
    r
}

fn full_scan(table: &str, limit: Option<i64>) -> (r: TableRead)
    ensures
        read_view(r) == (
            table@,
            None::<Seq<char>>,
            None::<Seq<char>>,
            Seq::<(Seq<char>, Seq<char>)>::empty(),
            limit,
        ),
{
    let r = TableRead {
        table_name: String::from_str(table),
        index_name: None,
        key_condition_expression: None,
        expression_attribute_values: Vec::new(),
        limit: limit,
    };
    assert(r.expression_attribute_values@.map_values(|e: (String, String)| (e.0@, e.1@))
        =~= Seq::<(Seq<char>, Seq<char>)>::empty());
    r
}

/// The posts of a board, through the board index.
pub fn posts_by_board_query(board: String) -> (r: TableRead)
    ensures
        read_view(r) == (
            POSTS_TABLE_NAME@,
            Some("board-index"@),
            Some("board_id = :inputboard"@),
            seq![(":inputboard"@, board@)],
            None::<i64>,
        ),
{
    keyed_query(POSTS_TABLE_NAME, Some("board-index"), "board_id = :inputboard", ":inputboard", board)
}

/// A post by its id.
pub fn post_by_id_query(post_id: String) -> (r: TableRead)
    ensures
        read_view(r) == (
            POSTS_TABLE_NAME@,
            None::<Seq<char>>,
            Some("id = :inputpost"@),
            seq![(":inputpost"@, post_id@)],
            None::<i64>,
        ),
{
    keyed_query(POSTS_TABLE_NAME, None, "id = :inputpost", ":inputpost", post_id)
}

/// An administrator account by user name, through the user name index.
pub fn admin_by_username_query(username: String) -> (r: TableRead)
    ensures
        read_view(r) == (
            ADMIN_TABLE_NAME@,
            Some("username-index"@),
            Some("username = :inputname"@),
            seq![(":inputname"@, username@)],
            None::<i64>,
        ),
{
    keyed_query(ADMIN_TABLE_NAME, Some("username-index"), "username = :inputname", ":inputname", username)
}

/// Any one administrator account: a scan of the account table limited to one item.
pub fn any_admin_scan() -> (r: TableRead)
    ensures
        read_view(r) == (
            ADMIN_TABLE_NAME@,
            None::<Seq<char>>,
            None::<Seq<char>>,
            Seq::<(Seq<char>, Seq<char>)>::empty(),
            Some(1i64),
        ),
{
    full_scan(ADMIN_TABLE_NAME, Some(1))
}

/// Every board: a scan of the board table.
pub fn boards_scan() -> (r: TableRead)
    ensures
        read_view(r) == (
            BOARDS_TABLE_NAME@,
            None::<Seq<char>>,
            None::<Seq<char>>,
            Seq::<(Seq<char>, Seq<char>)>::empty(),
            None::<i64>,
        ),
{
    full_scan(BOARDS_TABLE_NAME, None)
}

/// The outcome of looking up an administrator account: a failed query or one that found
/// nothing is refused as an invalid user; otherwise the account found (the last one the
/// read returned) is the result.
pub fn admin_lookup_result(query_succeeded: bool, found: Option<Admin>) -> (res: Result<
    Admin,
    InvalidUser,
>)
    ensures
        res is Ok <==> (query_succeeded && found is Some),
        res matches Ok(a) ==> found == Some(a),
        res is Err ==> res == Err::<Admin, InvalidUser>(InvalidUser),
{
    if !query_succeeded {
        return Err(InvalidUser);
    }
    match found {
        Some(a) => Ok(a),
        None => Err(InvalidUser),
    }
}

} // verus!
