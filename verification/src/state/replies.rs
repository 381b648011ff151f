//! What the replies of the backend and of file dialogs mean.

use crate::state::bots::{bot_label, new_bot_label};
use crate::state::effect::PickPurpose;
use crate::state::types::ImagePick;
use crate::text::{cat2, cat3, ends_with, has_end, lowercase, owned, same};
use vstd::prelude::*;

verus! {

/// What a backend function answered: an object, of which the caller needs a
/// `T`; a refusal, with its text; or something else.
pub enum Answer<T> {
    Object(T),
    Refused(String),
    Other,
}

/// A failure with this text.
pub open spec fn failed<T>(r: Result<T, String>, text: Seq<char>) -> bool {
    match r {
        Ok(_) => false,
        Err(e) => e@ == text,
    }
}

/// A friend was marked or unmarked as a favorite.
pub fn favorite_reply(friend_id: String, answer: Answer<Option<bool>>) -> (r: Result<
    (String, bool),
    String,
>)
    ensures
        match answer {
            Answer::Object(favorite) => r == Ok::<(String, bool), String>(
                (friend_id, favorite == Some(true)),
            ),
            Answer::Refused(e) => r == Err::<(String, bool), String>(e),
            Answer::Other => failed(r, "Unexpected server response"@),
        },
{
    match answer {
        Answer::Object(favorite) => Ok(
            (
                friend_id,
                match favorite {
                    Some(b) => b,
                    None => false,
                },
            ),
        ),
        Answer::Refused(e) => Err(e),
        Answer::Other => Err(owned("Unexpected server response")),
    }
}

/// So many requests were answered.
pub fn respond_all_reply(answer: Answer<u32>) -> (r: Result<u32, String>)
    ensures
        match answer {
            Answer::Object(count) => r == Ok::<u32, String>(count),
            Answer::Refused(e) => r == Err::<u32, String>(e),
            Answer::Other => failed(r, "Unexpected server response"@),
        },
{
    match answer {
        Answer::Object(count) => Ok(count),
        Answer::Refused(e) => Err(e),
        Answer::Other => Err(owned("Unexpected server response")),
    }
}

/// So many other sessions were ended.
pub fn sign_out_others_reply(answer: Answer<u32>) -> (r: Result<u32, String>)
    ensures
        match answer {
            Answer::Object(killed) => r == Ok::<u32, String>(killed),
            Answer::Refused(e) => r == Err::<u32, String>(e),
            Answer::Other => r == Ok::<u32, String>(0),
        },
{
    match answer {
        Answer::Object(killed) => Ok(killed),
        Answer::Refused(e) => Err(e),
        Answer::Other => Ok(0),
    }
}

/// The user name and the token of a new bot.
#[derive(Debug)]
pub struct NewBot {
    pub username: String,
    pub token: String,
}

/// A bot called `name` was made.
pub fn bot_created_reply(name: &str, answer: Answer<NewBot>) -> (r: Result<(String, String), String>)
    ensures
        match answer {
            Answer::Object(bot) => {
                &&& r is Ok
                &&& ((r->Ok_0).0)@ == new_bot_label(name@, bot.username@)
                &&& (r->Ok_0).1 == bot.token
            },
            Answer::Refused(e) => r == Err::<(String, String), String>(e),
            Answer::Other => failed(r, "Unexpected response"@),
        },
{
    match answer {
        Answer::Object(bot) => {
            let label = bot_label(name, &bot.username);
            Ok((label, bot.token))
        },
        Answer::Refused(e) => Err(e),
        Answer::Other => Err(owned("Unexpected response")),
    }
}

/// A bot has a new token.
pub fn bot_token_reply(answer: Answer<String>) -> (r: Result<String, String>)
    ensures
        match answer {
            Answer::Object(token) => r == Ok::<String, String>(token),
            Answer::Refused(e) => r == Err::<String, String>(e),
            Answer::Other => failed(r, "Unexpected response"@),
        },
{
    match answer {
        Answer::Object(token) => Ok(token),
        Answer::Refused(e) => Err(e),
        Answer::Other => Err(owned("Unexpected response")),
    }
}

/// Whether a chat stores history for us, and whether everyone in it allows it.
/// What is not known is taken to be allowed.
pub fn store_pref_reply(answer: Answer<(Option<bool>, Option<bool>)>) -> (r: (bool, bool))
    ensures
        r == match answer {
            Answer::Object((store, allows)) => (store != Some(false), allows != Some(false)),
            _ => (true, true),
        },
{
    match answer {
        Answer::Object((store, allows)) => (
            match store {
                Some(b) => b,
                None => true,
            },
            match allows {
                Some(b) => b,
                None => true,
            },
        ),
        _ => (true, true),
    }
}

/// A row of a channel's overwrites.
#[derive(Debug)]
pub struct OverwriteRow {
    /// role | member
    pub target_type: String,
    pub target_id: String,
    pub allow: u32,
    pub deny: u32,
}

/// The overwrites for roles, in their order.
pub open spec fn role_rows(rows: Seq<OverwriteRow>) -> Seq<(Seq<char>, u32, u32)>
    decreases rows.len(),
{
    if rows.len() == 0 {
        Seq::empty()
    } else {
        let before = role_rows(rows.drop_last());
        let r = rows.last();
        if r.target_type@ == "role"@ {
            before.push((r.target_id@, r.allow, r.deny))
        } else {
            before
        }
    }
}

/// Overwrites by what they hold.
pub open spec fn overwrite_views(rows: Seq<(String, u32, u32)>) -> Seq<(Seq<char>, u32, u32)> {
    Seq::new(rows.len(), |i: int| (rows[i].0@, rows[i].1, rows[i].2))
}

/// [`role_rows`], computed.
pub fn role_overwrites(rows: Vec<OverwriteRow>) -> (r: Vec<(String, u32, u32)>)
    ensures
        overwrite_views(r@) == role_rows(rows@),
{
    let mut r: Vec<(String, u32, u32)> = Vec::new();
    let mut i: usize = 0;
    assert(overwrite_views(r@) =~= role_rows(rows@.take(0)));
    while i < rows.len()
        invariant
            i <= rows@.len(),
            overwrite_views(r@) == role_rows(rows@.take(i as int)),
        decreases rows@.len() - i,
    {
        assert(rows@.take(i + 1).drop_last() =~= rows@.take(i as int));
        assert(rows@.take(i + 1).last() == rows@[i as int]);
        let row = &rows[i];
        if same(&row.target_type, "role") {
            let ghost before = overwrite_views(r@);
            r.push((row.target_id.clone(), row.allow, row.deny));
            assert(overwrite_views(r@) =~= before.push((row.target_id@, row.allow, row.deny)));
        }
        i += 1;
    }
    assert(rows@.take(rows@.len() as int) =~= rows@);
    r
}

// ---------- Pictures ----------

/// The largest picture for a purpose, in bytes.
pub open spec fn size_limit(purpose: PickPurpose) -> nat {
    match purpose {
        PickPurpose::Attachment => 5 * 1024 * 1024,
        PickPurpose::ServerIcon | PickPurpose::Avatar => 2 * 1024 * 1024,
    }
}

/// The content type of a picture, by its file name.
pub open spec fn content_type(name: Seq<char>) -> Seq<char> {
    if has_end(lowercase(name), ".png"@) {
        "image/png"@
    } else {
        "image/jpeg"@
    }
}

/// What a file dialog for a picture gave: the name and the bytes of a file, or
/// nothing.
pub fn classify_pick(purpose: PickPurpose, file: Option<(String, Vec<u8>)>) -> (r: ImagePick)
    ensures
        match file {
            None => r == ImagePick::Cancelled,
            Some((name, bytes)) => if bytes@.len() > size_limit(purpose) {
                r == ImagePick::TooLarge
            } else {
                match r {
                    ImagePick::Ready(b, t) => b == bytes && t@ == content_type(name@),
                    _ => false,
                }
            },
        },
{
    match file {
        None => ImagePick::Cancelled,
        Some((name, bytes)) => {
            let limit: usize = match purpose {
                PickPurpose::Attachment => 5_242_880,
                PickPurpose::ServerIcon => 2_097_152,
                PickPurpose::Avatar => 2_097_152,
            };
            if bytes.len() > limit {
                return ImagePick::TooLarge;
            }
            let kind = if ends_with(&name.as_str().to_lowercase(), ".png") {
                owned("image/png")
            } else {
                owned("image/jpeg")
            };
            ImagePick::Ready(bytes, kind)
        },
    }
}

/// How posting an upload went.
pub enum Posted {
    /// The request failed, with this text.
    Unsent(String),
    /// The server answered with this status; whether it is one of success; and
    /// the id of the stored file, or why the answer could not be read.
    Answered { status: String, success: bool, stored: Result<String, String> },
}

/// The id of the uploaded file, or what to tell the user. A strict upload
/// looks at the status, and its errors say that the upload is what failed.
pub fn upload_reply(strict: bool, posted: Posted) -> (r: Result<String, String>)
    ensures
        match posted {
            Posted::Unsent(e) => failed(
                r,
                if strict {
                    "Upload failed: "@ + e@
                } else {
                    e@
                },
            ),
            Posted::Answered { status, success, stored } => if strict && !success {
                failed(r, "Upload failed (HTTP "@ + status@ + ")"@)
            } else {
                match stored {
                    Ok(id) => r == Ok::<String, String>(id),
                    Err(e) => failed(
                        r,
                        if strict {
                            "Upload response invalid: "@ + e@
                        } else {
                            e@
                        },
                    ),
                }
            },
        },
{
    match posted {
        Posted::Unsent(e) => {
            if strict {
                Err(cat2("Upload failed: ", &e))
            } else {
                Err(e)
            }
        },
        Posted::Answered { status, success, stored } => {
            if strict && !success {
                return Err(cat3("Upload failed (HTTP ", &status, ")"));
            }
            match stored {
                Ok(id) => Ok(id),
                Err(e) => {
                    if strict {
                        Err(cat2("Upload response invalid: ", &e))
                    } else {
                        Err(e)
                    }
                },
            }
        },
    }
}

} // verus!
