//! What one call to the hosting service sends, as plain values: the endpoint, the
//! form fields in order, and the file that goes with them.

use vstd::prelude::*;

verus! {

/// The two services a request can go to.
#[derive(Clone, Copy, Debug, PartialEq, Eq, Structural)]
pub enum Endpoint {
    /// The permanent file host, which also deletes files and keeps albums.
    Catbox,
    /// The host for temporary files.
    Litterbox,
}

/// One text field of a form.
#[derive(Clone, Debug, PartialEq, Eq)]
pub struct Field {
    pub name: String,
    pub value: String,
}

/// The file part of a multipart form: the part's name, the path the bytes are read
/// from, and the file name that is sent along.
#[derive(Clone, Debug, PartialEq, Eq)]
pub struct FilePart {
    pub name: String,
    pub path: String,
    pub file_name: String,
}

/// One request: a single round trip to `endpoint`.
#[derive(Clone, Debug, PartialEq, Eq)]
pub struct Request {
    pub endpoint: Endpoint,
    pub fields: Vec<Field>,
    pub file: Option<FilePart>,
}

/// A field as mathematical text.
pub struct FieldView {
    pub name: Seq<char>,
    pub value: Seq<char>,
}

/// A file part as mathematical text.
pub struct FilePartView {
    pub name: Seq<char>,
    pub path: Seq<char>,
    pub file_name: Seq<char>,
}

/// A request as mathematical values.
pub struct RequestView {
    pub endpoint: Endpoint,
    pub fields: Seq<FieldView>,
    pub file: Option<FilePartView>,
}

impl View for Field {
    type V = FieldView;

    open spec fn view(&self) -> FieldView {
        FieldView { name: self.name@, value: self.value@ }
    }
}

impl View for FilePart {
    type V = FilePartView;

    open spec fn view(&self) -> FilePartView {
        FilePartView { name: self.name@, path: self.path@, file_name: self.file_name@ }
    }
}

impl View for Request {
    type V = RequestView;

    open spec fn view(&self) -> RequestView {
        RequestView {
            endpoint: self.endpoint,
            fields: Seq::new(self.fields@.len(), |i: int| self.fields@[i]@),
            file: match self.file {
                Some(part) => Some(part@),
                None => None,
            },
        }
    }
}

/// The field `name` with the value `value`.
pub open spec fn field(name: Seq<char>, value: Seq<char>) -> FieldView {
    FieldView { name, value }
}

/// Builds the field `name` with the value `value`.
pub fn make_field(name: &str, value: &str) -> (r: Field)
    ensures
        r@ == field(name@, value@),
{
    Field { name: name.to_owned(), value: value.to_owned() }
}

} // verus!
