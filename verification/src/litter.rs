//! Requests to the host for temporary files.

use crate::file::{make_upload_part, upload_part};
use crate::request::{field, make_field, Endpoint, Field, Request, RequestView};
use crate::text::{decimal, decimal_text};
use vstd::prelude::*;
use vstd::string::StringExecFns;

verus! {

/// A lifetime of `time` hours as the service reads it: the numeral, then `h`.
pub open spec fn lifetime(time: u8) -> Seq<char> {
    decimal(time as nat).push('h')
}

/// The request that uploads the file at `file_path` for `time` hours. It carries
/// no account.
pub open spec fn temporary_upload_request(file_path: Seq<char>, time: u8) -> RequestView {
    RequestView {
        endpoint: Endpoint::Litterbox,
        fields: seq![field("reqtype"@, "fileupload"@), field("time"@, lifetime(time))],
        file: Some(upload_part(file_path)),
    }
}

/// Describes the temporary upload of the local file at `file_path`, kept for
/// `time` hours. Which lifetimes the service takes is settled where the arguments
/// are read, not here.
pub fn upload(file_path: &str, time: u8) -> (r: Request)
    ensures
        r@ == temporary_upload_request(file_path@, time),
{
    let mut hours = decimal_text(time);
    proof {
        reveal_strlit("h");
    }
    hours.append("h");
    assert(hours@ =~= lifetime(time));
    let mut fields: Vec<Field> = Vec::new();
    fields.push(make_field("reqtype", "fileupload"));
    fields.push(make_field("time", hours.as_str()));
    let r = Request { endpoint: Endpoint::Litterbox, fields, file: Some(make_upload_part(file_path)) };
    assert(r@.fields =~= temporary_upload_request(file_path@, time).fields);
    r
}

} // verus!
