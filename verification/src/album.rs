//! Requests to the album endpoints of the permanent file host. Each call on an
//! album is one request; the files it names go in a single field, separated by
//! single spaces.

use crate::batch::{AlbumCall, AlbumCallView};
use crate::request::{field, make_field, Endpoint, Field, FieldView, Request, RequestView};
use crate::text::{join, joined, views};
use vstd::prelude::*;

verus! {

/// The form fields of a call on an album, in the order in which they are sent.
pub open spec fn album_fields(call: AlbumCallView) -> Seq<FieldView> {
    match call {
        AlbumCallView::Create { title, description, user_hash, files } => seq![
            field("reqtype"@, "createalbum"@),
            field("userhash"@, user_hash),
            field("title"@, title),
            field("desc"@, description),
            field("files"@, joined(files, " "@)),
        ],
        AlbumCallView::Edit { short, title, description, user_hash, files } => seq![
            field("reqtype"@, "editalbum"@),
            field("userhash"@, user_hash),
            field("short"@, short),
            field("title"@, title),
            field("desc"@, description),
            field("files"@, joined(files, " "@)),
        ],
        AlbumCallView::AddFiles { short, user_hash, files } => seq![
            field("reqtype"@, "addtoalbum"@),
            field("userhash"@, user_hash),
            field("short"@, short),
            field("files"@, joined(files, " "@)),
        ],
        AlbumCallView::RemoveFiles { short, user_hash, files } => seq![
            field("reqtype"@, "removefromalbum"@),
            field("userhash"@, user_hash),
            field("short"@, short),
            field("files"@, joined(files, " "@)),
        ],
        AlbumCallView::Delete { short, user_hash } => seq![
            field("reqtype"@, "deletealbum"@),
            field("userhash"@, user_hash),
            field("short"@, short),
        ],
    }
}

/// The one request of a call on an album. It goes to the permanent file host and
/// carries no file.
pub open spec fn album_request(call: AlbumCallView) -> RequestView {
    RequestView { endpoint: Endpoint::Catbox, fields: album_fields(call), file: None }
}

/// Describes the request of a call on an album.
pub fn to_request(call: &AlbumCall) -> (r: Request)
    ensures
        r@ == album_request(call@),
{
    let mut fields: Vec<Field> = Vec::new();
    match call {
        AlbumCall::Create { title, description, user_hash, files } => {
            let names = join(files, " ");
            fields.push(make_field("reqtype", "createalbum"));
            fields.push(make_field("userhash", user_hash.as_str()));
            fields.push(make_field("title", title.as_str()));
            fields.push(make_field("desc", description.as_str()));
            fields.push(make_field("files", names.as_str()));
        },
        AlbumCall::Edit { short, title, description, user_hash, files } => {
            let names = join(files, " ");
            fields.push(make_field("reqtype", "editalbum"));
            fields.push(make_field("userhash", user_hash.as_str()));
            fields.push(make_field("short", short.as_str()));
            fields.push(make_field("title", title.as_str()));
            fields.push(make_field("desc", description.as_str()));
            fields.push(make_field("files", names.as_str()));
        },
        AlbumCall::AddFiles { short, user_hash, files } => {
            let names = join(files, " ");
            fields.push(make_field("reqtype", "addtoalbum"));
            fields.push(make_field("userhash", user_hash.as_str()));
            fields.push(make_field("short", short.as_str()));
            fields.push(make_field("files", names.as_str()));
        },
        AlbumCall::RemoveFiles { short, user_hash, files } => {
            let names = join(files, " ");
            fields.push(make_field("reqtype", "removefromalbum"));
            fields.push(make_field("userhash", user_hash.as_str()));
            fields.push(make_field("short", short.as_str()));
            fields.push(make_field("files", names.as_str()));
        },
        AlbumCall::Delete { short, user_hash } => {
            fields.push(make_field("reqtype", "deletealbum"));
            fields.push(make_field("userhash", user_hash.as_str()));
            fields.push(make_field("short", short.as_str()));
        },
    }
    let r = Request { endpoint: Endpoint::Catbox, fields, file: None };
    assert(r@.fields =~= album_fields(call@));
    r
}

} // verus!
