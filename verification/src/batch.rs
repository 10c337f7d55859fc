//! What each command does with its arguments before anything is sent: sorting
//! the items into groups, reducing addresses to identifiers, and wording the line
//! that reports how one operation ended.

use crate::args::{
    Album, AlbumAdd, AlbumCommand, AlbumCreate, AlbumDelete, AlbumEdit, AlbumRemove, Delete, Litter,
    Upload,
};
use crate::classify::{
    classification, classify, classify_path, url_parses, Classification, ClassifiedItem, ItemKind,
};
use crate::file::{delete, delete_request};
use crate::hosted::{identifier, identifiers, regex_is_match, HostedPattern};
use crate::request::Request;
use crate::text::views;
use vstd::prelude::*;
use vstd::string::StringExecFns;

verus! {

/// Why one call to the service gave no answer.
#[derive(Clone, Copy, Debug, PartialEq, Eq, Structural)]
pub enum GatewayError {
    /// The request did not get through, or the service answered with a failure
    /// status.
    Transport,
    /// The file could not be opened or read.
    LocalIo,
}

/// The lifetime of a temporary upload where none is asked for.
pub const DEFAULT_HOURS: u8 = 1;

/// The line for an item that is neither a path nor a URL.
pub open spec fn ignored_line(item: Seq<char>) -> Seq<char> {
    "Ignoring "@ + item + ": invalid path or URL"@
}

/// The line for an item whose upload failed.
pub open spec fn failed_line(item: Seq<char>) -> Seq<char> {
    "Uploading "@ + item + " failed."@
}

/// The line for an item whose upload ended with `response`: the answer of the
/// service as it came, or the line that names the item as failed.
pub open spec fn result_line(item: Seq<char>, response: Result<String, GatewayError>) -> Seq<char> {
    match response {
        Ok(text) => text@,
        Err(_) => failed_line(item),
    }
}

/// The line of a failed upload names the item: its text stands in the line, after
/// the first word.
pub proof fn lemma_failed_line_names_item(item: Seq<char>)
    ensures
        failed_line(item).len() == item.len() + 18,
        failed_line(item).subrange(10, 10 + item.len() as int) == item,
{
    reveal_strlit("Uploading ");
    reveal_strlit(" failed.");
    assert(failed_line(item).subrange(10, 10 + item.len() as int) =~= item);
}

/// Whatever a call to the service gave, the item gets a line: the answer as it
/// came where there was one, and the line that names the item where there was
/// none.
pub proof fn lemma_every_response_gives_a_line(item: Seq<char>, response: Result<String, GatewayError>)
    ensures
        response is Ok ==> result_line(item, response) == response->Ok_0@,
        response is Err ==> result_line(item, response) == failed_line(item),
{
}

/// Words the line for an item that is neither a path nor a URL.
pub fn invalid_uri(uri: &str) -> (r: String)
    ensures
        r@ == ignored_line(uri@),
{
    let mut out = String::from_str("Ignoring ");
    out.append(uri);
    out.append(": invalid path or URL");
    out
}

/// Words the line for the upload of `item` that ended with `response`.
pub fn upload_line(item: &str, response: Result<String, GatewayError>) -> (r: String)
    ensures
        r@ == result_line(item@, response),
{
    match response {
        Ok(text) => text,
        Err(_) => {
            let mut out = String::from_str("Uploading ");
            out.append(item);
            out.append(" failed.");
            out
        },
    }
}

/// Words the line for the upload of the local file `file`.
pub fn upload_file(file: &str, response: Result<String, GatewayError>) -> (r: String)
    ensures
        r@ == result_line(file@, response),
{
    upload_line(file, response)
}

/// Words the line for the upload of what `url` points to.
pub fn upload_url(url: &str, response: Result<String, GatewayError>) -> (r: String)
    ensures
        r@ == result_line(url@, response),
{
    upload_line(url, response)
}

/// Words the line for the temporary upload of the local file `file_path`.
pub fn upload_to_litter(file_path: &str, response: Result<String, GatewayError>) -> (r: String)
    ensures
        r@ == result_line(file_path@, response),
{
    upload_line(file_path, response)
}

/// The line for a call that is no upload and failed: a deletion, or a call on an
/// album.
pub open spec fn call_failed_line() -> Seq<char> {
    "The request failed."@
}

/// The line for a deletion or a call on an album that ended with `response`: the
/// answer of the service as it came, or the line that says that the call failed.
pub open spec fn call_line(response: Result<String, GatewayError>) -> Seq<char> {
    match response {
        Ok(text) => text@,
        Err(_) => call_failed_line(),
    }
}

/// Words the line for the deletion that ended with `response`.
pub fn delete_line(response: Result<String, GatewayError>) -> (r: String)
    ensures
        r@ == call_line(response),
{
    match response {
        Ok(text) => text,
        Err(_) => String::from_str("The request failed."),
    }
}

/// Words the line for the call on an album that ended with `response`.
pub fn album_line(response: Result<String, GatewayError>) -> (r: String)
    ensures
        r@ == call_line(response),
{
    delete_line(response)
}

/// The texts of the items of `items` that are of kind `kind`, in order.
pub open spec fn texts_of_kind(items: Seq<Classification>, kind: ItemKind) -> Seq<Seq<char>>
    decreases items.len(),
{
    if items.len() == 0 {
        Seq::empty()
    } else if items.last().kind == kind {
        texts_of_kind(items.drop_last(), kind).push(items.last().text)
    } else {
        texts_of_kind(items.drop_last(), kind)
    }
}

/// The views of classified items, in order.
pub open spec fn classified_views(items: Seq<ClassifiedItem>) -> Seq<Classification> {
    Seq::new(items.len(), |i: int| items[i]@)
}

/// The three groups take every item: none is lost and none is in two groups.
pub proof fn lemma_groups_take_every_item(items: Seq<Classification>)
    ensures
        texts_of_kind(items, ItemKind::LocalFile).len() + texts_of_kind(
            items,
            ItemKind::RemoteURL,
        ).len() + texts_of_kind(items, ItemKind::Invalid).len() == items.len(),
    decreases items.len(),
{
    if items.len() > 0 {
        lemma_groups_take_every_item(items.drop_last());
    }
}

/// Every text of a group is the text of an item of that kind.
pub proof fn lemma_group_members(items: Seq<Classification>, kind: ItemKind, j: int)
    requires
        0 <= j < texts_of_kind(items, kind).len(),
    ensures
        exists|i: int|
            0 <= i < items.len() && items[i].kind == kind && items[i].text == texts_of_kind(
                items,
                kind,
            )[j],
    decreases items.len(),
{
    let n = items.len() - 1;
    if items.last().kind == kind && j == texts_of_kind(items.drop_last(), kind).len() {
        assert(items[n].kind == kind && items[n].text == texts_of_kind(items, kind)[j]);
    } else {
        lemma_group_members(items.drop_last(), kind, j);
        let i = choose|i: int|
            0 <= i < items.drop_last().len() && items.drop_last()[i].kind == kind
                && items.drop_last()[i].text == texts_of_kind(items.drop_last(), kind)[j];
        assert(items[i].kind == kind && items[i].text == texts_of_kind(items, kind)[j]);
    }
}

/// The items of a batch, sorted into the three groups. Each group keeps the
/// order in which its items were given.
#[derive(Clone, Debug, PartialEq, Eq)]
pub struct Groups {
    /// The items that are neither: each is reported and nothing is sent.
    pub invalid: Vec<String>,
    /// The URLs.
    pub urls: Vec<String>,
    /// The paths of local files.
    pub files: Vec<String>,
}

/// Groups as mathematical values.
pub struct GroupsView {
    pub invalid: Seq<Seq<char>>,
    pub urls: Seq<Seq<char>>,
    pub files: Seq<Seq<char>>,
}

impl View for Groups {
    type V = GroupsView;

    open spec fn view(&self) -> GroupsView {
        GroupsView { invalid: views(self.invalid@), urls: views(self.urls@), files: views(self.files@) }
    }
}

/// The groups that classified items are sorted into.
pub open spec fn grouped(items: Seq<Classification>) -> GroupsView {
    GroupsView {
        invalid: texts_of_kind(items, ItemKind::Invalid),
        urls: texts_of_kind(items, ItemKind::RemoteURL),
        files: texts_of_kind(items, ItemKind::LocalFile),
    }
}

/// Sorts classified items into the three groups.
pub fn group(items: &Vec<ClassifiedItem>) -> (r: Groups)
    ensures
        r@ == grouped(classified_views(items@)),
{
    let mut invalid: Vec<String> = Vec::new();
    let mut urls: Vec<String> = Vec::new();
    let mut files: Vec<String> = Vec::new();
    let ghost all = classified_views(items@);
    let mut i: usize = 0;
    while i < items.len()
        invariant
            0 <= i <= items.len(),
            all == classified_views(items@),
            views(invalid@) == texts_of_kind(all.subrange(0, i as int), ItemKind::Invalid),
            views(urls@) == texts_of_kind(all.subrange(0, i as int), ItemKind::RemoteURL),
            views(files@) == texts_of_kind(all.subrange(0, i as int), ItemKind::LocalFile),
        decreases items.len() - i,
    {
        proof {
            let next = all.subrange(0, i + 1);
            assert(next.drop_last() =~= all.subrange(0, i as int));
            assert(next.last() == items@[i as int]@);
        }
        let ghost before_invalid = views(invalid@);
        let ghost before_urls = views(urls@);
        let ghost before_files = views(files@);
        let text = items[i].text().to_owned();
        match items[i].kind() {
            ItemKind::Invalid => {
                invalid.push(text);
                assert(views(invalid@) =~= before_invalid.push(text@));
            },
            ItemKind::RemoteURL => {
                urls.push(text);
                assert(views(urls@) =~= before_urls.push(text@));
            },
            ItemKind::LocalFile => {
                files.push(text);
                assert(views(files@) =~= before_files.push(text@));
            },
        }
        i = i + 1;
    }
    assert(all.subrange(0, items.len() as int) =~= all);
    Groups { invalid, urls, files }
}

/// Whether `found` classifies `given` item by item, each as the file system
/// answered for it: a path that exists is a local file, and any other item is a
/// URL where `urls` are taken and it parses as one, and invalid otherwise.
pub open spec fn classifies(given: Seq<Seq<char>>, found: Seq<Classification>, urls: bool) -> bool {
    &&& found.len() == given.len()
    &&& forall|i: int|
        0 <= i < given.len() ==> #[trigger] found[i] == classification(
            given[i],
            found[i].kind == ItemKind::LocalFile,
            urls && url_parses(given[i]),
        )
}

/// Classifies each item of `given`, in order.
pub fn classify_all(given: &Vec<String>, urls: bool) -> (r: Vec<ClassifiedItem>)
    ensures
        classifies(views(given@), classified_views(r@), urls),
{
    let mut out: Vec<ClassifiedItem> = Vec::new();
    let mut i: usize = 0;
    while i < given.len()
        invariant
            0 <= i <= given.len(),
            out@.len() == i,
            forall|k: int|
                0 <= k < i ==> #[trigger] out@[k]@ == classification(
                    given@[k]@,
                    out@[k]@.kind == ItemKind::LocalFile,
                    urls && url_parses(given@[k]@),
                ),
        decreases given.len() - i,
    {
        let item = if urls {
            classify(given[i].as_str())
        } else {
            classify_path(given[i].as_str())
        };
        out.push(item);
        i = i + 1;
    }
    assert forall|k: int| 0 <= k < given@.len() implies #[trigger] classified_views(out@)[k]
        == classification(
        views(given@)[k],
        classified_views(out@)[k].kind == ItemKind::LocalFile,
        urls && url_parses(views(given@)[k]),
    ) by {
        assert(classified_views(out@)[k] == out@[k]@);
    }
    out
}

/// What the upload command does: the account, and the items in their groups.
#[derive(Clone, Debug, PartialEq, Eq)]
pub struct UploadPlan {
    pub user_hash: String,
    pub groups: Groups,
}

/// What the command for temporary uploads does: the lifetime in hours, and the
/// items in their groups, of which the one of URLs is empty.
#[derive(Clone, Debug, PartialEq, Eq)]
pub struct LitterPlan {
    pub time: u8,
    pub groups: Groups,
}

/// Sorts the items of an upload into local files, URLs and the rest. Whether a
/// path exists is asked of the file system, item by item, as the sorting goes.
pub fn upload(upload_args: &Upload) -> (r: UploadPlan)
    ensures
        r.user_hash@ == upload_args.user_hash@,
        exists|found: Seq<Classification>|
            classifies(views(upload_args.files@), found, true) && r.groups@ == grouped(found),
        r.groups@.invalid.len() + r.groups@.urls.len() + r.groups@.files.len()
            == upload_args.files@.len(),
{
    let found = classify_all(&upload_args.files, true);
    proof {
        lemma_groups_take_every_item(classified_views(found@));
    }
    UploadPlan { user_hash: upload_args.user_hash.clone(), groups: group(&found) }
}

/// The lifetime that a temporary upload gets: the one asked for, or one hour.
pub open spec fn hours_or_default(time: Option<u8>) -> u8 {
    match time {
        Some(hours) => hours,
        None => DEFAULT_HOURS,
    }
}

/// Sorts the items of a temporary upload into local files and the rest; a URL
/// is not taken here. A lifetime that is not given is one hour.
pub fn litter(litter_args: &Litter) -> (r: LitterPlan)
    ensures
        r.time == hours_or_default(litter_args.time),
        exists|found: Seq<Classification>|
            classifies(views(litter_args.files@), found, false) && r.groups@ == grouped(found),
        r.groups@.urls.len() == 0,
        r.groups@.invalid.len() + r.groups@.files.len() == litter_args.files@.len(),
{
    let found = classify_all(&litter_args.files, false);
    proof {
        lemma_groups_take_every_item(classified_views(found@));
        lemma_no_urls(views(litter_args.files@), classified_views(found@));
    }
    let time: u8 = match litter_args.time {
        Some(hours) => hours,
        None => DEFAULT_HOURS,
    };
    LitterPlan { time, groups: group(&found) }
}

/// Where URLs are not taken, the group of URLs is empty.
pub proof fn lemma_no_urls(given: Seq<Seq<char>>, found: Seq<Classification>)
    requires
        classifies(given, found, false),
    ensures
        texts_of_kind(found, ItemKind::RemoteURL).len() == 0,
    decreases found.len(),
{
    if found.len() > 0 {
        let n = found.len() - 1;
        assert(found[n] == classification(given[n], found[n].kind == ItemKind::LocalFile, false));
        assert forall|i: int| 0 <= i < n implies #[trigger] found.drop_last()[i] == classification(
            given.drop_last()[i],
            found.drop_last()[i].kind == ItemKind::LocalFile,
            false,
        ) by {
            assert(found[i] == classification(given[i], found[i].kind == ItemKind::LocalFile, false));
        }
        lemma_no_urls(given.drop_last(), found.drop_last());
    }
}

/// Describes the one call that deletes the files of `delete_args`. No item is
/// classified: each is taken as the name of a file, after an address of a hosted
/// file has been reduced to the name at its end.
pub fn delete_file(pattern: &HostedPattern, delete_args: &Delete) -> (r: Request)
    ensures
        r@ == delete_request(
            identifiers(pattern.source(), views(delete_args.files@)),
            delete_args.user_hash@,
        ),
{
    let names = pattern.reduce_all(&delete_args.files);
    delete(&names, delete_args.user_hash.as_str())
}

/// One call on an album, with every identifier reduced.
#[derive(Clone, Debug, PartialEq, Eq)]
pub enum AlbumCall {
    Create { title: String, description: String, user_hash: String, files: Vec<String> },
    Edit { short: String, title: String, description: String, user_hash: String, files: Vec<String> },
    AddFiles { short: String, user_hash: String, files: Vec<String> },
    RemoveFiles { short: String, user_hash: String, files: Vec<String> },
    Delete { short: String, user_hash: String },
}

/// A call on an album as mathematical values.
pub enum AlbumCallView {
    Create { title: Seq<char>, description: Seq<char>, user_hash: Seq<char>, files: Seq<Seq<char>> },
    Edit {
        short: Seq<char>,
        title: Seq<char>,
        description: Seq<char>,
        user_hash: Seq<char>,
        files: Seq<Seq<char>>,
    },
    AddFiles { short: Seq<char>, user_hash: Seq<char>, files: Seq<Seq<char>> },
    RemoveFiles { short: Seq<char>, user_hash: Seq<char>, files: Seq<Seq<char>> },
    Delete { short: Seq<char>, user_hash: Seq<char> },
}

impl View for AlbumCall {
    type V = AlbumCallView;

    open spec fn view(&self) -> AlbumCallView {
        match self {
            AlbumCall::Create { title, description, user_hash, files } => AlbumCallView::Create {
                title: title@,
                description: description@,
                user_hash: user_hash@,
                files: views(files@),
            },
            AlbumCall::Edit { short, title, description, user_hash, files } => AlbumCallView::Edit {
                short: short@,
                title: title@,
                description: description@,
                user_hash: user_hash@,
                files: views(files@),
            },
            AlbumCall::AddFiles { short, user_hash, files } => AlbumCallView::AddFiles {
                short: short@,
                user_hash: user_hash@,
                files: views(files@),
            },
            AlbumCall::RemoveFiles { short, user_hash, files } => AlbumCallView::RemoveFiles {
                short: short@,
                user_hash: user_hash@,
                files: views(files@),
            },
            AlbumCall::Delete { short, user_hash } => AlbumCallView::Delete {
                short: short@,
                user_hash: user_hash@,
            },
        }
    }
}

/// The text of a description: empty where none is given.
pub open spec fn text_or_empty(text: Option<String>) -> Seq<char> {
    match text {
        Some(t) => t@,
        None => Seq::empty(),
    }
}

fn description_text(text: &Option<String>) -> (r: String)
    ensures
        r@ == text_or_empty(*text),
{
    match text {
        Some(t) => t.clone(),
        None => String::new(),
    }
}

/// The identifier sent for `given` under the pattern written as `pattern`.
pub open spec fn reduced(pattern: Seq<char>, given: Seq<char>) -> Seq<char> {
    identifier(given, regex_is_match(pattern, given))
}

/// The call that creates the album of `args`.
pub open spec fn create_call(pattern: Seq<char>, args: AlbumCreate) -> AlbumCallView {
    AlbumCallView::Create {
        title: args.title@,
        description: text_or_empty(args.description),
        user_hash: args.user_hash@,
        files: identifiers(pattern, views(args.files@)),
    }
}

/// The call that edits the album of `args`.
pub open spec fn edit_call(pattern: Seq<char>, args: AlbumEdit) -> AlbumCallView {
    AlbumCallView::Edit {
        short: reduced(pattern, args.short@),
        title: args.title@,
        description: text_or_empty(args.description),
        user_hash: args.user_hash@,
        files: identifiers(pattern, views(args.files@)),
    }
}

/// The call that adds the files of `args` to its album.
pub open spec fn add_call(pattern: Seq<char>, args: AlbumAdd) -> AlbumCallView {
    AlbumCallView::AddFiles {
        short: reduced(pattern, args.short@),
        user_hash: args.user_hash@,
        files: identifiers(pattern, views(args.files@)),
    }
}

/// The call that removes the files of `args` from its album.
pub open spec fn remove_call(pattern: Seq<char>, args: AlbumRemove) -> AlbumCallView {
    AlbumCallView::RemoveFiles {
        short: reduced(pattern, args.short@),
        user_hash: args.user_hash@,
        files: identifiers(pattern, views(args.files@)),
    }
}

/// The call that deletes the album of `args`.
pub open spec fn delete_call(pattern: Seq<char>, args: AlbumDelete) -> AlbumCallView {
    AlbumCallView::Delete { short: reduced(pattern, args.short@), user_hash: args.user_hash@ }
}

/// The call that the album command of `album` makes.
pub open spec fn album_call(pattern: Seq<char>, album: Album) -> AlbumCallView {
    match album.album_command {
        AlbumCommand::Create(args) => create_call(pattern, args),
        AlbumCommand::Delete(args) => delete_call(pattern, args),
        AlbumCommand::Edit(args) => edit_call(pattern, args),
        AlbumCommand::Add(args) => add_call(pattern, args),
        AlbumCommand::Remove(args) => remove_call(pattern, args),
    }
}

/// Describes the creation of an album. A description that is not given is
/// empty.
pub fn create_album(pattern: &HostedPattern, album_create_args: &AlbumCreate) -> (r: AlbumCall)
    ensures
        r@ == create_call(pattern.source(), *album_create_args),
{
    AlbumCall::Create {
        title: album_create_args.title.clone(),
        description: description_text(&album_create_args.description),
        user_hash: album_create_args.user_hash.clone(),
        files: pattern.reduce_all(&album_create_args.files),
    }
}

/// Describes the deletion of an album.
pub fn delete_album(pattern: &HostedPattern, album_delete_args: &AlbumDelete) -> (r: AlbumCall)
    ensures
        r@ == delete_call(pattern.source(), *album_delete_args),
{
    AlbumCall::Delete {
        short: pattern.reduce(album_delete_args.short.as_str()),
        user_hash: album_delete_args.user_hash.clone(),
    }
}

/// Describes the edit of an album.
pub fn edit_album(pattern: &HostedPattern, album_edit_args: &AlbumEdit) -> (r: AlbumCall)
    ensures
        r@ == edit_call(pattern.source(), *album_edit_args),
{
    AlbumCall::Edit {
        short: pattern.reduce(album_edit_args.short.as_str()),
        title: album_edit_args.title.clone(),
        description: description_text(&album_edit_args.description),
        user_hash: album_edit_args.user_hash.clone(),
        files: pattern.reduce_all(&album_edit_args.files),
    }
}

/// Describes the adding of files to an album.
pub fn add_to_album(pattern: &HostedPattern, album_add_args: &AlbumAdd) -> (r: AlbumCall)
    ensures
        r@ == add_call(pattern.source(), *album_add_args),
{
    AlbumCall::AddFiles {
        short: pattern.reduce(album_add_args.short.as_str()),
        user_hash: album_add_args.user_hash.clone(),
        files: pattern.reduce_all(&album_add_args.files),
    }
}

/// Describes the removal of files from an album.
pub fn remove_from_album(pattern: &HostedPattern, album_remove_args: &AlbumRemove) -> (r: AlbumCall)
    ensures
        r@ == remove_call(pattern.source(), *album_remove_args),
{
    AlbumCall::RemoveFiles {
        short: pattern.reduce(album_remove_args.short.as_str()),
        user_hash: album_remove_args.user_hash.clone(),
        files: pattern.reduce_all(&album_remove_args.files),
    }
}

/// Describes the call that an album command makes.
pub fn parse_album(pattern: &HostedPattern, album_args: &Album) -> (r: AlbumCall)
    ensures
        r@ == album_call(pattern.source(), *album_args),
{
    match &album_args.album_command {
        AlbumCommand::Create(sub_args) => create_album(pattern, sub_args),
        AlbumCommand::Delete(sub_args) => delete_album(pattern, sub_args),
        AlbumCommand::Edit(sub_args) => edit_album(pattern, sub_args),
        AlbumCommand::Add(sub_args) => add_to_album(pattern, sub_args),
        AlbumCommand::Remove(sub_args) => remove_from_album(pattern, sub_args),
    }
}

} // verus!
