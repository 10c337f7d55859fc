//! Requests to the permanent file host: upload a local file, upload by URL, and
//! delete files.

use crate::request::{field, make_field, Endpoint, Field, FilePart, FilePartView, Request, RequestView};
use crate::text::{join, joined, last_segment, trailing_segment, views};
use vstd::prelude::*;

verus! {

/// The file part that uploads the file at `path`: it is sent under the last
/// segment of the path, not under the whole path.
pub open spec fn upload_part(path: Seq<char>) -> FilePartView {
    FilePartView { name: "fileToUpload"@, path, file_name: trailing_segment(path) }
}

/// Builds the file part that uploads the file at `path`.
pub fn make_upload_part(path: &str) -> (r: FilePart)
    ensures
        r@ == upload_part(path@),
{
    FilePart {
        name: "fileToUpload".to_owned(),
        path: path.to_owned(),
        file_name: last_segment(path),
    }
}

/// The request that uploads the file at `file_path` for the account `user_hash`.
pub open spec fn file_upload_request(file_path: Seq<char>, user_hash: Seq<char>) -> RequestView {
    RequestView {
        endpoint: Endpoint::Catbox,
        fields: seq![field("reqtype"@, "fileupload"@), field("userhash"@, user_hash)],
        file: Some(upload_part(file_path)),
    }
}

/// The request that has the host fetch `url` for the account `user_hash`.
pub open spec fn url_upload_request(url: Seq<char>, user_hash: Seq<char>) -> RequestView {
    RequestView {
        endpoint: Endpoint::Catbox,
        fields: seq![
            field("reqtype"@, "urlupload"@),
            field("userhash"@, user_hash),
            field("url"@, url),
        ],
        file: None,
    }
}

/// The one request that deletes all of `files`: their names go in a single field,
/// separated by single spaces.
pub open spec fn delete_request(files: Seq<Seq<char>>, user_hash: Seq<char>) -> RequestView {
    RequestView {
        endpoint: Endpoint::Catbox,
        fields: seq![
            field("reqtype"@, "deletefiles"@),
            field("userhash"@, user_hash),
            field("files"@, joined(files, " "@)),
        ],
        file: None,
    }
}

/// Describes the upload of the local file at `file_path`. An empty `user_hash`
/// uploads anonymously.
pub fn from_file(file_path: &str, user_hash: &str) -> (r: Request)
    ensures
        r@ == file_upload_request(file_path@, user_hash@),
{
    let mut fields: Vec<Field> = Vec::new();
    fields.push(make_field("reqtype", "fileupload"));
    fields.push(make_field("userhash", user_hash));
    let r = Request { endpoint: Endpoint::Catbox, fields, file: Some(make_upload_part(file_path)) };
    assert(r@.fields =~= file_upload_request(file_path@, user_hash@).fields);
    r
}

/// Describes the upload of what `url` points to; no local bytes are read.
pub fn from_url(url: &str, user_hash: &str) -> (r: Request)
    ensures
        r@ == url_upload_request(url@, user_hash@),
{
    let mut fields: Vec<Field> = Vec::new();
    fields.push(make_field("reqtype", "urlupload"));
    fields.push(make_field("userhash", user_hash));
    fields.push(make_field("url", url));
    let r = Request { endpoint: Endpoint::Catbox, fields, file: None };
    assert(r@.fields =~= url_upload_request(url@, user_hash@).fields);
    r
}

/// Describes the deletion of `files` in one call.
pub fn delete(files: &Vec<String>, user_hash: &str) -> (r: Request)
    ensures
        r@ == delete_request(views(files@), user_hash@),
{
    let names = join(files, " ");
    let mut fields: Vec<Field> = Vec::new();
    fields.push(make_field("reqtype", "deletefiles"));
    fields.push(make_field("userhash", user_hash));
    fields.push(make_field("files", names.as_str()));
    let r = Request { endpoint: Endpoint::Catbox, fields, file: None };
    assert(r@.fields =~= delete_request(views(files@), user_hash@).fields);
    r
}

} // verus!
