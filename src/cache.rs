//! Layout of a client's local message cache under a base directory:
//! `<base>/users/<user_id>/chats/<peer_id>.json`.
use vstd::prelude::*;
use vstd::string::*;
use crate::text::{int_text, push_int};

verus! {

/// `part` appended to the path `base`, with one `/` between them unless `base` is
/// empty or already ends with `/`.
pub open spec fn path_join(base: Seq<char>, part: Seq<char>) -> Seq<char> {
    if base.len() == 0 || base[base.len() - 1] == '/' {
        base + part
    } else {
        base + "/"@ + part
    }
}

pub open spec fn user_dir_path(base: Seq<char>, user_id: i64) -> Seq<char> {
    path_join(path_join(base, "users"@), int_text(user_id as int))
}

pub open spec fn chats_dir_path(base: Seq<char>, user_id: i64) -> Seq<char> {
    path_join(user_dir_path(base, user_id), "chats"@)
}

pub open spec fn chat_file_path(base: Seq<char>, user_id: i64, peer_id: i64) -> Seq<char> {
    path_join(chats_dir_path(base, user_id), int_text(peer_id as int) + ".json"@)
}

/// Appends the separator that [`path_join`] puts after `out`.
fn push_separator(out: &mut String)
    ensures
        final(out)@ == if old(out)@.len() == 0 || old(out)@[old(out)@.len() - 1] == '/' {
            old(out)@
        } else {
            old(out)@ + "/"@
        },
{
    let n = out.as_str().unicode_len();
    if n > 0 && out.as_str().get_char(n - 1) != '/' {
        out.append("/");
    }
}

fn join(out: &mut String, part: &str)
    ensures
        final(out)@ == path_join(old(out)@, part@),
{
    let ghost start = out@;
    push_separator(out);
    out.append(part);
    assert(out@ =~= path_join(start, part@));
}

fn join_int(out: &mut String, n: i64)
    ensures
        final(out)@ == path_join(old(out)@, int_text(n as int)),
{
    let ghost start = out@;
    push_separator(out);
    push_int(out, n);
    assert(out@ =~= path_join(start, int_text(n as int)));
}

/// The cache directory of one user.
pub fn user_dir(base: &str, user_id: i64) -> (r: String)
    ensures
        r@ == user_dir_path(base@, user_id),
{
    let mut out = base.to_owned();
    join(&mut out, "users");
    join_int(&mut out, user_id);
    out
}

/// The directory of one user's conversations.
pub fn chats_dir(base: &str, user_id: i64) -> (r: String)
    ensures
        r@ == chats_dir_path(base@, user_id),
{
    let mut out = user_dir(base, user_id);
    join(&mut out, "chats");
    out
}

/// The file of one user's conversation with `peer_id`.
pub fn chat_file(base: &str, user_id: i64, peer_id: i64) -> (r: String)
    ensures
        r@ == chat_file_path(base@, user_id, peer_id),
{
    let mut out = chats_dir(base, user_id);
    let ghost start = out@;
    push_separator(&mut out);
    push_int(&mut out, peer_id);
    out.append(".json");
    assert(out@ =~= path_join(start, int_text(peer_id as int) + ".json"@));
    out
}

} // verus!
