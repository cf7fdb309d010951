//! The listing of a directory: which of its files can be played, and what
//! stands against using it.

use crate::helpers::chars_of;
use vstd::prelude::*;
use vstd::string::*;

verus! {

/// Why a directory could not be made into a library.
#[derive(Debug)]
pub enum Error {
    /// a file without an extension
    NoExtension(String),
    /// the directory could not be read; the message says why
    FromIo(String),
    /// files that the saved library names and the directory no longer holds
    MissingFiles(Vec<String>),
    /// no file with a supported extension
    NoValidFiles,
}

/// The mathematical content of an [`Error`].
pub enum ErrorView {
    NoExtension(Seq<char>),
    FromIo(Seq<char>),
    MissingFiles(Seq<Seq<char>>),
    NoValidFiles,
}

/// What a list of strings holds.
pub open spec fn names_view(names: Seq<String>) -> Seq<Seq<char>> {
    names.map_values(|name: String| name@)
}

impl View for Error {
    type V = ErrorView;

    open spec fn view(&self) -> ErrorView {
        match self {
            Error::NoExtension(name) => ErrorView::NoExtension(name@),
            Error::FromIo(message) => ErrorView::FromIo(message@),
            Error::MissingFiles(names) => ErrorView::MissingFiles(names_view(names@)),
            Error::NoValidFiles => ErrorView::NoValidFiles,
        }
    }
}

/// The text that std's `Debug` writes for a string: the string in double
/// quotes, with what cannot be shown as it is written as an escape. It
/// depends on the characters of the string alone.
pub uninterp spec fn quoted_spec(text: Seq<char>) -> Seq<char>;

/// The text that std's `Debug` writes on one line for a list of strings. It
/// depends on the characters of the strings alone.
pub uninterp spec fn quoted_list_spec(texts: Seq<Seq<char>>) -> Seq<char>;

/// `format!` with `{:#?}` on a `String`, that is std's `Debug` for `str`.
/// Unproved: that the text it gives is the one that `quoted_spec` names for
/// the characters of the string.
#[verifier::external_body]
fn quoted(text: &String) -> (form: String)
    ensures
        form@ == quoted_spec(text@),
{
    format!("{text:#?}")
}

/// `format!` with `{:?}` on a `Vec<String>`, that is std's `Debug` for a
/// list of strings. Unproved: that the text it gives is the one that
/// `quoted_list_spec` names for the characters of the strings.
#[verifier::external_body]
fn quoted_list(texts: &Vec<String>) -> (form: String)
    ensures
        form@ == quoted_list_spec(names_view(texts@)),
{
    format!("{texts:?}")
}

/// What the user is told of a file without an extension, whose name is
/// shown as `form`.
pub open spec fn no_extension_spec(form: Seq<char>) -> Seq<char> {
    form + " has no extension"@
}

/// What the user is told of missing files, whose names are shown as `form`.
pub open spec fn missing_files_spec(form: Seq<char>) -> Seq<char> {
    form
        + " those filename exist in the cached json 'gadacz_data.json' file but are not present in the directory"@
}

/// What an error tells the user.
pub open spec fn message_spec(error: ErrorView) -> Seq<char> {
    match error {
        ErrorView::NoExtension(name) => no_extension_spec(quoted_spec(name)),
        ErrorView::FromIo(message) => message,
        ErrorView::MissingFiles(names) => missing_files_spec(quoted_list_spec(names)),
        ErrorView::NoValidFiles => "Given directory is empty or it has no files with valid extensions."@,
    }
}

/// Tells the user of a file without an extension, whose name is shown as
/// `form`.
pub fn no_extension_message(form: String) -> (text: String)
    ensures
        text@ == no_extension_spec(form@),
{
    let mut text = form;
    text.append(" has no extension");
    text
}

/// Tells the user of missing files, whose names are shown as `form`.
pub fn missing_files_message(form: String) -> (text: String)
    ensures
        text@ == missing_files_spec(form@),
{
    let mut text = form;
    text.append(
        " those filename exist in the cached json 'gadacz_data.json' file but are not present in the directory",
    );
    text
}

impl Error {
    /// What the error tells the user.
    pub fn message(&self) -> (text: String)
        ensures
            text@ == message_spec(self@),
    {
        match self {
            Error::NoExtension(name) => no_extension_message(quoted(name)),
            Error::FromIo(message) => message.clone(),
            Error::MissingFiles(names) => missing_files_message(quoted_list(names)),
            Error::NoValidFiles => String::from_str(
                "Given directory is empty or it has no files with valid extensions.",
            ),
        }
    }

    /// What the user can do about the error, where there is a remedy.
    pub fn suggestion(&self) -> (remedy: Option<&'static str>)
        ensures
            remedy is Some <==> self is MissingFiles,
            remedy matches Some(text) ==> text@
                == "Restore those files or remove/ change files names manully in the gadacz_data.json file"@,
    {
        match self {
            Error::MissingFiles(_) => Some(
                "Restore those files or remove/ change files names manully in the gadacz_data.json file",
            ),
            _ => None,
        }
    }
}

/// One entry of a directory listing: the name of a file, or the failure to
/// read the entry.
#[derive(Debug)]
pub enum Entry {
    File(String),
    Failed(String),
}

/// The mathematical content of an [`Entry`].
pub enum EntryView {
    File(Seq<char>),
    Failed(Seq<char>),
}

impl View for Entry {
    type V = EntryView;

    open spec fn view(&self) -> EntryView {
        match self {
            Entry::File(name) => EntryView::File(name@),
            Entry::Failed(message) => EntryView::Failed(message@),
        }
    }
}

/// What a directory listing holds.
pub open spec fn entries_view(entries: Seq<Entry>) -> Seq<EntryView> {
    entries.map_values(|entry: Entry| entry@)
}

/// The name of the file that holds the saved library of a directory.
pub open spec fn snapshot_name_spec() -> Seq<char> {
    "gadacz_data.json"@
}

/// The name of the file that holds the saved library of a directory.
pub fn snapshot_name() -> (name: &'static str)
    ensures
        name@ == snapshot_name_spec(),
{
    "gadacz_data.json"
}

/// Tells whether the directory holds a saved library: a file of that name
/// is among the entries of its listing.
pub fn has_snapshot(entries: &Vec<Entry>) -> (found: bool)
    ensures
        found == entries_view(entries@).contains(EntryView::File(snapshot_name_spec())),
{
    let ghost all = entries_view(entries@);
    let mut i: usize = 0;
    while i < entries.len()
        invariant
            i <= entries@.len(),
            all == entries_view(entries@),
            forall|k: int| 0 <= k < i ==> all[k] != EntryView::File(snapshot_name_spec()),
        decreases entries@.len() - i,
    {
        match &entries[i] {
            Entry::File(name) => {
                if tail_is(&chars_of(name.as_str()), 0, snapshot_name()) {
                    assert(name@.skip(0) =~= name@);
                    assert(all[i as int] == EntryView::File(snapshot_name_spec()));
                    return true;
                }
                assert(name@.skip(0) =~= name@);
            },
            Entry::Failed(_) => {},
        }
        assert(all[i as int] == entries@[i as int]@);
        i = i + 1;
    }
    false
}

/// The index of the last `.` in `name`.
pub open spec fn last_dot(name: Seq<char>) -> Option<int>
    decreases name.len(),
{
    if name.len() == 0 {
        None
    } else if name.last() == '.' {
        Some(name.len() - 1)
    } else {
        last_dot(name.drop_last())
    }
}

/// The extension of a file name: what follows its last `.`, unless the name
/// has none or only begins with one.
pub open spec fn extension_spec(name: Seq<char>) -> Option<Seq<char>> {
    match last_dot(name) {
        None => None,
        Some(dot) => if dot == 0 {
            None
        } else {
            Some(name.skip(dot + 1))
        },
    }
}

/// The extensions of container files, which may hold several tracks.
pub open spec fn is_m4_extension(extension: Seq<char>) -> bool {
    extension == "m4a"@ || extension == "m4b"@
}

/// The extensions of the files that can be played.
pub open spec fn is_valid_extension(extension: Seq<char>) -> bool {
    ||| extension == "flac"@
    ||| extension == "m4a"@
    ||| extension == "m4b"@
    ||| extension == "mp3"@
    ||| extension == "mp4"@
    ||| extension == "ogg"@
    ||| extension == "opus"@
    ||| extension == "wav"@
}

/// Whether the file called `name` can be played.
pub open spec fn is_valid_name(name: Seq<char>) -> bool {
    extension_spec(name) matches Some(extension) && is_valid_extension(extension)
}

/// Where the extension of `name` begins, if it has one.
fn extension_start(name: &Vec<char>) -> (start: Option<usize>)
    ensures
        match start {
            Some(start) => start <= name@.len() && extension_spec(name@) == Some(
                name@.skip(start as int),
            ),
            None => extension_spec(name@) is None,
        },
{
    let mut i = name.len();
    assert(name@.take(i as int) =~= name@);
    while i > 0 && name[i - 1] != '.'
        invariant
            i <= name@.len(),
            last_dot(name@) == last_dot(name@.take(i as int)),
        decreases i,
    {
        proof {
            assert(name@.take(i as int).drop_last() =~= name@.take(i - 1));
        }
        i = i - 1;
    }
    if i <= 1 {
        None
    } else {
        Some(i)
    }
}

/// Whether what `name` holds from `start` on is `word`.
fn tail_is(name: &Vec<char>, start: usize, word: &str) -> (same: bool)
    requires
        start <= name@.len(),
    ensures
        same == (name@.skip(start as int) == word@),
{
    let letters = chars_of(word);
    let ghost tail = name@.skip(start as int);
    if name.len() - start != letters.len() {
        return false;
    }
    let mut i: usize = 0;
    while i < letters.len()
        invariant
            start + letters@.len() == name@.len(),
            name@.len() <= usize::MAX,
            letters@ == word@,
            tail == name@.skip(start as int),
            i <= letters@.len(),
            tail.take(i as int) == letters@.take(i as int),
        decreases letters@.len() - i,
    {
        assert(tail[i as int] == name@[start + i]);
        if name[start + i] != letters[i] {
            return false;
        }
        assert(tail.take(i + 1) =~= tail.take(i as int).push(tail[i as int]));
        assert(letters@.take(i + 1) =~= letters@.take(i as int).push(letters@[i as int]));
        i = i + 1;
    }
    assert(tail =~= tail.take(i as int));
    assert(letters@ =~= letters@.take(i as int));
    true
}

/// What the extension of a file name says of the file.
#[derive(Clone, Copy, Debug, PartialEq, Eq, Structural)]
pub enum FileKind {
    /// no extension at all
    NoExtension,
    /// an extension that is not among the playable ones
    Unsupported,
    /// a playable file that is one chapter
    Plain,
    /// a playable container file
    Container,
}

/// The kind of the file called `name`.
pub open spec fn file_kind_spec(name: Seq<char>) -> FileKind {
    match extension_spec(name) {
        None => FileKind::NoExtension,
        Some(extension) => if is_m4_extension(extension) {
            FileKind::Container
        } else if is_valid_extension(extension) {
            FileKind::Plain
        } else {
            FileKind::Unsupported
        },
    }
}

/// Tells by its extension what the file called `name` is.
pub fn file_kind(name: &str) -> (kind: FileKind)
    ensures
        kind == file_kind_spec(name@),
{
    let chars = chars_of(name);
    match extension_start(&chars) {
        None => FileKind::NoExtension,
        Some(start) => {
            if tail_is(&chars, start, "m4a") || tail_is(&chars, start, "m4b") {
                FileKind::Container
            } else if tail_is(&chars, start, "flac") || tail_is(&chars, start, "mp3") || tail_is(
                &chars,
                start,
                "mp4",
            ) || tail_is(&chars, start, "ogg") || tail_is(&chars, start, "opus") || tail_is(
                &chars,
                start,
                "wav",
            ) {
                FileKind::Plain
            } else {
                FileKind::Unsupported
            }
        },
    }
}

/// The files of a listing that can be played, in the order of the listing,
/// or the first thing that stands against using the directory: an entry that
/// could not be read, or a file without an extension. Files with another
/// extension are passed over.
pub open spec fn scan_spec(entries: Seq<EntryView>) -> Result<Seq<Seq<char>>, ErrorView>
    decreases entries.len(),
{
    if entries.len() == 0 {
        Ok(Seq::empty())
    } else {
        match scan_spec(entries.drop_last()) {
            Err(error) => Err(error),
            Ok(names) => match entries.last() {
                EntryView::Failed(message) => Err(ErrorView::FromIo(message)),
                EntryView::File(name) => match file_kind_spec(name) {
                    FileKind::NoExtension => Err(ErrorView::NoExtension(name)),
                    FileKind::Unsupported => Ok(names),
                    _ => Ok(names.push(name)),
                },
            },
        }
    }
}

/// What the outcome of a scan holds.
pub open spec fn scan_view(content: Result<Vec<String>, Error>) -> Result<
    Seq<Seq<char>>,
    ErrorView,
> {
    match content {
        Ok(names) => Ok(names_view(names@)),
        Err(error) => Err(error@),
    }
}

/// Scans the listing of a directory for files with valid extensions.
pub fn scan_dir(entries: &Vec<Entry>) -> (content: Result<Vec<String>, Error>)
    ensures
        scan_view(content) == scan_spec(entries_view(entries@)),
{
    let ghost all = entries_view(entries@);
    let mut names: Vec<String> = Vec::new();
    let mut i: usize = 0;
    assert(names_view(names@) =~= Seq::empty());
    assert(all.take(0) =~= Seq::empty());
    while i < entries.len()
        invariant
            i <= entries@.len(),
            all == entries_view(entries@),
            scan_spec(all.take(i as int)) == Ok::<Seq<Seq<char>>, ErrorView>(names_view(names@)),
        decreases entries@.len() - i,
    {
        proof {
            assert(all.take(i + 1).drop_last() =~= all.take(i as int));
            assert(all.take(i + 1).last() == entries@[i as int]@);
        }
        match &entries[i] {
            Entry::Failed(message) => {
                proof {
                    assert(all.take(entries@.len() as int) =~= all);
                    lemma_scan_error_stays(all, i + 1);
                }
                return Err(Error::FromIo(message.clone()));
            },
            Entry::File(name) => {
                match file_kind(name.as_str()) {
                    FileKind::NoExtension => {
                        proof {
                            lemma_scan_error_stays(all, i + 1);
                        }
                        return Err(Error::NoExtension(name.clone()));
                    },
                    FileKind::Unsupported => {},
                    _ => {
                        let ghost before = names_view(names@);
                        names.push(name.clone());
                        assert(names_view(names@) =~= before.push(name@));
                    },
                }
            },
        }
        i = i + 1;
    }
    assert(all.take(i as int) =~= all);
    Ok(names)
}

/// An error found in the front part of a listing is the error of the whole.
proof fn lemma_scan_error_stays(entries: Seq<EntryView>, k: int)
    requires
        0 <= k <= entries.len(),
        scan_spec(entries.take(k)) is Err,
    ensures
        scan_spec(entries) == scan_spec(entries.take(k)),
    decreases entries.len() - k,
{
    if k < entries.len() {
        assert(entries.take(k + 1).drop_last() =~= entries.take(k));
        lemma_scan_error_stays(entries, k + 1);
    } else {
        assert(entries.take(k) =~= entries);
    }
}

/// Whether an entry of a listing stands against using the directory: it
/// could not be read, or it is a file without an extension.
pub open spec fn stands_against(entry: EntryView) -> bool {
    match entry {
        EntryView::Failed(_) => true,
        EntryView::File(name) => file_kind_spec(name) == FileKind::NoExtension,
    }
}

/// The error that an entry which stands against using the directory gives.
pub open spec fn error_of(entry: EntryView) -> ErrorView {
    match entry {
        EntryView::Failed(message) => ErrorView::FromIo(message),
        EntryView::File(name) => ErrorView::NoExtension(name),
    }
}

/// A scan succeeds exactly where no entry stands against it, and then gives
/// playable files only; else it gives the error of the first entry that
/// stands against it.
pub proof fn lemma_scan_outcome(entries: Seq<EntryView>)
    ensures
        match scan_spec(entries) {
            Ok(names) => {
                &&& forall|i: int| 0 <= i < entries.len() ==> !stands_against(#[trigger] entries[i])
                &&& forall|k: int| 0 <= k < names.len() ==> is_valid_name(#[trigger] names[k])
            },
            Err(error) => exists|i: int|
                {
                    &&& 0 <= i < entries.len()
                    &&& stands_against(#[trigger] entries[i])
                    &&& error == error_of(entries[i])
                    &&& forall|j: int| 0 <= j < i ==> !stands_against(#[trigger] entries[j])
                },
        },
    decreases entries.len(),
{
    if entries.len() > 0 {
        let front = entries.drop_last();
        lemma_scan_outcome(front);
        match scan_spec(front) {
            Err(error) => {
                let i = choose|i: int|
                    {
                        &&& 0 <= i < front.len()
                        &&& stands_against(#[trigger] front[i])
                        &&& error == error_of(front[i])
                        &&& forall|j: int| 0 <= j < i ==> !stands_against(#[trigger] front[j])
                    };
                assert(entries[i] == front[i]);
                assert forall|j: int| 0 <= j < i implies !stands_against(#[trigger] entries[j]) by {
                    assert(entries[j] == front[j]);
                }
            },
            Ok(names) => {
                let last = entries.len() - 1;
                assert forall|j: int| 0 <= j < last implies !stands_against(
                    #[trigger] entries[j],
                ) by {
                    assert(entries[j] == front[j]);
                }
                if stands_against(entries.last()) {
                    assert(stands_against(entries[last]));
                } else {
                    assert forall|i: int| 0 <= i < entries.len() implies !stands_against(
                        #[trigger] entries[i],
                    ) by {
                        if i < last {
                            assert(entries[i] == front[i]);
                        }
                    }
                }
            },
        }
    }
}

} // verus!
