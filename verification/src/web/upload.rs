//! Uploading a bot as a zip archive.

use vstd::prelude::*;

use crate::text::{ascii_upper, chars_of, eq_ignoring_case, same_ignoring_case, text_view};
use crate::text::{differ_in_case, only_case_is_ignored};

verus! {

/// Whether a character parts the directories of a path, on any system.
pub open spec fn parts_paths(c: char) -> bool {
    c == '/' || c == '\\'
}

/// The number of characters up to and including the last one that parts
/// directories.
pub open spec fn directory_len(path: Seq<char>) -> int
    decreases path.len(),
{
    if path.len() == 0 {
        0
    } else if parts_paths(path.last()) {
        path.len() as int
    } else {
        directory_len(path.drop_last())
    }
}

/// What comes after the last character that parts directories.
pub open spec fn base_name(path: Seq<char>) -> Seq<char> {
    path.skip(directory_len(path))
}

/// The position of the last dot.
pub open spec fn last_dot(name: Seq<char>) -> Option<int>
    decreases name.len(),
{
    if name.len() == 0 {
        None
    } else if name.last() == '.' {
        Some(name.len() - 1)
    } else {
        last_dot(name.drop_last())
    }
}

/// The extension of a file name: what comes after its last dot. A name whose only
/// dot is its first character has none, and neither has `..`, which is no file
/// name.
pub open spec fn extension_of(name: Seq<char>) -> Option<Seq<char>> {
    match last_dot(name) {
        Some(dot) => if dot == 0 || name =~= seq!['.', '.'] {
            None
        } else {
            Some(name.skip(dot + 1))
        },
        None => None,
    }
}

/// Whether a name begins with a letter and a colon, which some systems read as a
/// drive and not as a part of the file name.
pub open spec fn has_drive(name: Seq<char>) -> bool {
    name.len() >= 2 && name[1] == ':' && ('a' <= name[0] <= 'z' || 'A' <= name[0] <= 'Z')
}

/// Whether a name has no character that parts directories.
pub open spec fn is_base_name(name: Seq<char>) -> bool {
    forall|i: int| 0 <= i < name.len() ==> !parts_paths(#[trigger] name[i])
}

/// Whether a name may be read to have an extension: that of the whole name or,
/// where the system knows drives, that of what comes after the drive.
pub open spec fn may_extend(name: Seq<char>, extension: Option<Seq<char>>) -> bool {
    ||| extension == extension_of(name)
    ||| has_drive(name) && extension == extension_of(name.skip(2))
}

/// `std::path::Path::extension` of a path that is a single name: what comes after
/// the last dot of the file name, or nothing.
///
/// The file name is the whole name or, on a system with drives, what comes after
/// the drive. Which of the two a system does is not claimed.
#[verifier::external_body]
fn path_extension(name: &str) -> (extension: Option<String>)
    requires
        is_base_name(name@),
    ensures
        match extension {
            Some(e) => may_extend(name@, Some(e@)),
            None => may_extend(name@, None),
        },
{
    std::path::Path::new(name).extension().map(|e| e.to_string_lossy().into_owned())
}

/// Whether an extension is that of a zip archive, in any case.
pub open spec fn is_zip(extension: Option<Seq<char>>) -> bool {
    extension matches Some(e) && same_ignoring_case(e, "zip"@)
}

/// The file name that an uploaded archive is kept under, for a last part of the
/// name it came with that has this extension.
pub open spec fn kept_with(file_name: Seq<char>, extension: Option<Seq<char>>) -> Option<Seq<char>> {
    if base_name(file_name).len() > 0 && is_zip(extension) {
        Some(base_name(file_name))
    } else {
        None
    }
}

/// Whether an uploaded archive may be kept under a name: the last part of the name
/// it came with, if that is read to have the extension of a zip archive.
pub open spec fn may_keep(file_name: Seq<char>, kept: Option<Seq<char>>) -> bool {
    let name = base_name(file_name);
    ||| kept == kept_with(file_name, extension_of(name))
    ||| has_drive(name) && kept == kept_with(file_name, extension_of(name.skip(2)))
}

/// Where the last part of a path begins.
fn base_start(chars: &Vec<char>) -> (start: usize)
    ensures
        start == directory_len(chars@),
        start <= chars.len(),
{
    let mut i: usize = chars.len();
    assert(chars@.take(i as int) =~= chars@);
    while i > 0
        invariant
            i <= chars.len(),
            directory_len(chars@) == directory_len(chars@.take(i as int)),
        decreases i,
    {
        let c = chars[i - 1];
        assert(chars@.take(i as int).last() == c);
        if c == '/' || c == '\\' {
            return i;
        }
        assert(chars@.take(i as int).drop_last() =~= chars@.take(i - 1));
        i -= 1;
    }
    0
}

/// The last dot is a dot, and none comes after it.
proof fn last_dots_are_last(name: Seq<char>)
    ensures
        match last_dot(name) {
            Some(dot) => {
                &&& 0 <= dot < name.len()
                &&& name[dot] == '.'
                &&& forall|i: int| dot < i < name.len() ==> #[trigger] name[i] != '.'
            },
            None => forall|i: int| 0 <= i < name.len() ==> #[trigger] name[i] != '.',
        },
    decreases name.len(),
{
    if name.len() > 0 && name.last() != '.' {
        let front = name.drop_last();
        last_dots_are_last(front);
        assert forall|i: int| 0 <= i < front.len() implies #[trigger] name[i] == front[i] by {}
    }
}

/// The file name that an uploaded archive is kept under, for a last part that has
/// this extension: without the directories that the browser may have put in
/// front of it, and only if it is a zip archive.
pub fn keep_zip<'a>(name: &'a str, extension: Option<&str>) -> (kept: Option<&'a str>)
    ensures
        kept is Some <==> name@.len() > 0 && is_zip(text_view(extension)),
        kept matches Some(k) ==> k@ == name@,
        text_view(kept) == zip_name(name@, text_view(extension)),
{
    let zip = match extension {
        Some(e) => eq_ignoring_case(e, "zip"),
        None => false,
    };
    if !name.is_empty() && zip {
        Some(name)
    } else {
        None
    }
}

/// The file name that an uploaded archive is kept under, without the directories
/// that the browser may have put in front of it. Nothing if it does not name a
/// zip archive.
pub fn uploaded_file_name(file_name: &str) -> (kept: Option<&str>)
    ensures
        may_keep(file_name@, text_view(kept)),
{
    let chars = chars_of(file_name);
    let start: usize = base_start(&chars);
    let name = file_name.substring_char(start, chars.len());
    assert(name@ =~= base_name(file_name@));
    proof {
        base_names_have_no_directory(file_name@);
    }
    match path_extension(name) {
        Some(extension) => keep_zip(name, Some(extension.as_str())),
        None => keep_zip(name, None),
    }
}

/// Whether a name ends in a dot and `zip`, in any case.
pub open spec fn ends_in_zip(name: Seq<char>) -> bool {
    &&& name.len() >= 4
    &&& name[name.len() - 4] == '.'
    &&& same_ignoring_case(name.skip(name.len() - 3), "zip"@)
}

/// A name has the extension of a zip archive exactly if it ends in a dot and
/// `zip` and has something before that.
pub proof fn zip_extensions_are_suffixes(name: Seq<char>)
    ensures
        is_zip(extension_of(name)) <==> ends_in_zip(name) && name.len() > 4,
{
    reveal_strlit("zip");
    last_dots_are_last(name);
    let zip = "zip"@;
    assert(zip.len() == 3 && zip[0] == 'z' && zip[1] == 'i' && zip[2] == 'p');
    if is_zip(extension_of(name)) {
        let dot = last_dot(name)->0;
        assert(name.skip(dot + 1).len() == 3);
        assert(name.skip(name.len() - 3) =~= name.skip(dot + 1));
    }
    if ends_in_zip(name) && name.len() > 4 {
        let tail = name.skip(name.len() - 3);
        assert forall|i: int| name.len() - 4 < i < name.len() implies #[trigger] name[i] != '.' by {
            let j = i - (name.len() - 3);
            assert(name[i] == tail[j]);
            assert(ascii_upper(tail[j]) == ascii_upper(zip[j]));
        }
        assert(last_dot(name) == Some(name.len() - 4));
    }
}

/// Whether a name is a drive and nothing but a zip extension: on a system with
/// drives that is a file name of a dot and `zip`, which has no extension.
pub open spec fn is_bare_zip_on_a_drive(name: Seq<char>) -> bool {
    has_drive(name) && name.len() == 6 && ends_in_zip(name)
}

/// An archive is kept under the last part of the name it came with exactly if that
/// ends in a dot and `zip` and has something before that, on every system; the
/// one thing that may count as nothing is a drive.
pub proof fn zip_names_are_kept(file_name: Seq<char>, kept: Option<Seq<char>>)
    requires
        may_keep(file_name, kept),
        !is_bare_zip_on_a_drive(base_name(file_name)),
    ensures
        kept == if ends_in_zip(base_name(file_name)) && base_name(file_name).len() > 4 {
            Some(base_name(file_name))
        } else {
            None
        },
{
    let name = base_name(file_name);
    zip_extensions_are_suffixes(name);
    if has_drive(name) {
        let rest = name.skip(2);
        zip_extensions_are_suffixes(rest);
        if name.len() >= 6 {
            assert(rest.skip(rest.len() - 3) =~= name.skip(name.len() - 3));
            assert(rest[rest.len() - 4] == name[name.len() - 4]);
        }
    }
}

/// A name that an archive is kept under is kept again as it is.
pub proof fn kept_names_are_kept_again(
    file_name: Seq<char>,
    name: Seq<char>,
    again: Option<Seq<char>>,
)
    requires
        may_keep(file_name, Some(name)),
        may_keep(name, again),
        !is_bare_zip_on_a_drive(name),
    ensures
        again == Some(name),
{
    base_names_have_no_directory(file_name);
    base_names_have_no_directory(name);
    assert forall|i: int| 0 <= i < name.len() implies !parts_paths(#[trigger] name[i]) by {}
    names_without_directory_stay(name);
    assert(base_name(name) =~= name);
    zip_names_are_kept(file_name, Some(name));
    zip_names_are_kept(name, again);
}

proof fn names_without_directory_stay(name: Seq<char>)
    requires
        is_base_name(name),
    ensures
        directory_len(name) == 0,
    decreases name.len(),
{
    if name.len() > 0 {
        assert forall|i: int| 0 <= i < name.drop_last().len() implies !parts_paths(
            #[trigger] name.drop_last()[i],
        ) by {
            assert(name.drop_last()[i] == name[i]);
        }
        names_without_directory_stay(name.drop_last());
        assert(!parts_paths(name[name.len() - 1]));
    }
}

/// An archive is never kept under a name that leads into another directory, nor
/// under none.
pub proof fn kept_names_stay_in_their_directory(file_name: Seq<char>, name: Seq<char>)
    requires
        may_keep(file_name, Some(name)),
    ensures
        name.len() > 0,
        is_base_name(name),
        name != seq!['.', '.'],
{
    base_names_have_no_directory(file_name);
    zip_extensions_are_suffixes(name);
    zip_extensions_are_suffixes(name.skip(2));
}

/// What comes after the last character that parts directories has none.
pub proof fn base_names_have_no_directory(path: Seq<char>)
    ensures
        0 <= directory_len(path) <= path.len(),
        forall|i: int| directory_len(path) <= i < path.len() ==> !parts_paths(#[trigger] path[i]),
    decreases path.len(),
{
    if path.len() > 0 && !parts_paths(path.last()) {
        base_names_have_no_directory(path.drop_last());
        assert forall|i: int| directory_len(path) <= i < path.len() implies !parts_paths(
            #[trigger] path[i],
        ) by {
            if i < path.len() - 1 {
                assert(path[i] == path.drop_last()[i]);
            }
        }
    }
}

/// The name that an archive is kept under if it came with none that will do.
pub open spec fn fallback_name() -> Seq<char> {
    "bot.zip"@
}

/// What is said of an upload without an archive.
pub open spec fn no_archive_text() -> Seq<char> {
    "missing zip archive"@
}

/// What has come in of an upload.
#[derive(Debug)]
pub struct UploadForm {
    /// The name that the bot is to have.
    pub name: Option<String>,
    /// The file name that the archive is kept under.
    pub archive: Option<String>,
}

/// What has come in of an upload.
pub ghost struct FormView {
    pub name: Option<Seq<char>>,
    pub archive: Option<Seq<char>>,
}

impl View for UploadForm {
    type V = FormView;

    open spec fn view(&self) -> FormView {
        FormView {
            name: match self.name {
                Some(n) => Some(n@),
                None => None,
            },
            archive: match self.archive {
                Some(a) => Some(a@),
                None => None,
            },
        }
    }
}

/// A part of an upload: a name for the bot, or an archive with the name it is kept
/// under.
pub ghost enum FormPart {
    Name(Seq<char>),
    Archive(Seq<char>),
}

/// What has come in of an upload once another part has.
pub open spec fn form_with(before: FormView, part: FormPart) -> FormView {
    match part {
        FormPart::Name(value) => FormView {
            name: if value.len() == 0 {
                None
            } else {
                Some(value)
            },
            ..before
        },
        FormPart::Archive(kept) => FormView { archive: Some(kept), ..before },
    }
}

/// What has come in of an upload after all of its parts.
pub open spec fn form_of(parts: Seq<FormPart>) -> FormView
    decreases parts.len(),
{
    if parts.len() == 0 {
        FormView { name: None, archive: None }
    } else {
        form_with(form_of(parts.drop_last()), parts.last())
    }
}

impl UploadForm {
    /// An upload of which nothing has come in.
    pub fn new() -> (form: UploadForm)
        ensures
            form.name is None,
            form.archive is None,
            form@ == form_of(Seq::empty()),
    {
        UploadForm { name: None, archive: None }
    }

    /// Takes in the name that the bot is to have. An empty one is none, and a
    /// later one replaces an earlier.
    pub fn receive_name(&mut self, value: String)
        ensures
            final(self).archive == old(self).archive,
            final(self).name == if value@.len() == 0 {
                None
            } else {
                Some(value)
            },
            final(self)@ == form_with(old(self)@, FormPart::Name(value@)),
    {
        self.name = if value.as_str().is_empty() {
            None
        } else {
            Some(value)
        };
    }

    /// Takes in an archive with the file name it came with, and says which name
    /// to keep it under. A later archive replaces an earlier.
    pub fn receive_archive(&mut self, file_name: Option<&str>) -> (kept: String)
        ensures
            final(self).name == old(self).name,
            final(self).archive matches Some(name) && name@ == kept@,
            match file_name {
                Some(f) => exists|k: Option<Seq<char>>| #[trigger]
                    may_keep(f@, k) && kept@ == match k {
                        Some(name) => name,
                        None => fallback_name(),
                    },
                None => kept@ == fallback_name(),
            },
            may_store(text_view(file_name), kept@),
            final(self)@ == form_with(old(self)@, FormPart::Archive(kept@)),
    {
        let chosen = match file_name {
            Some(f) => {
                let kept = uploaded_file_name(f);
                assert(may_keep(f@, text_view(kept)));
                match kept {
                    Some(name) => name,
                    None => "bot.zip",
                }
            },
            None => "bot.zip",
        };
        self.archive = Some(chosen.to_owned());
        chosen.to_owned()
    }

    /// What to install: the archive and the name for it. An upload without an
    /// archive is refused.
    pub fn finish(self) -> (upload: Result<(String, Option<String>), String>)
        ensures
            match upload {
                Ok((archive, name)) => self.archive == Some(archive) && name == self.name,
                Err(text) => self.archive is None && text@ == no_archive_text(),
            },
            match upload {
                Ok(form) => finished(self.archive, self.name) == Some(form),
                Err(_) => finished(self.archive, self.name) is None,
            },
    {
        match self.archive {
            Some(archive) => Ok((archive, self.name)),
            None => Err("missing zip archive".to_owned()),
        }
    }
}

/// The last part of a path is what is left of it after the directories: the rest
/// is empty or ends in a character that parts directories, and the two make up the
/// path.
pub proof fn a_path_is_its_directories_and_its_last_part(path: Seq<char>)
    ensures
        path == path.take(directory_len(path)) + base_name(path),
        directory_len(path) > 0 ==> path[directory_len(path) - 1] == '/' || path[directory_len(path)
            - 1] == '\\',
        forall|i: int|
            0 <= i < base_name(path).len() ==> #[trigger] base_name(path)[i] != '/' && base_name(
                path,
            )[i] != '\\',
    decreases path.len(),
{
    base_names_have_no_directory(path);
    directories_end_in_a_separator(path);
    assert(path =~= path.take(directory_len(path)) + base_name(path));
    assert forall|i: int| 0 <= i < base_name(path).len() implies #[trigger] base_name(path)[i]
        != '/' && base_name(path)[i] != '\\' by {
        assert(!parts_paths(path[directory_len(path) + i]));
    }
}

proof fn directories_end_in_a_separator(path: Seq<char>)
    ensures
        0 <= directory_len(path) <= path.len(),
        directory_len(path) > 0 ==> path[directory_len(path) - 1] == '/' || path[directory_len(path)
            - 1] == '\\',
    decreases path.len(),
{
    if path.len() > 0 && !parts_paths(path.last()) {
        directories_end_in_a_separator(path.drop_last());
    }
}

/// The latest name that comes in is the name of a bot, whatever came before it and
/// whatever archives come after it; an empty one takes the name away.
pub proof fn the_latest_name_counts(parts: Seq<FormPart>, i: int)
    requires
        0 <= i < parts.len(),
        parts[i] is Name,
        forall|j: int| i < j < parts.len() ==> !(#[trigger] parts[j] is Name),
    ensures
        parts[i]->Name_0.len() > 0 ==> form_of(parts).name == Some(parts[i]->Name_0),
        parts[i]->Name_0.len() == 0 ==> form_of(parts).name is None,
    decreases parts.len(),
{
    assert(parts.last() == parts[parts.len() - 1]);
    if i < parts.len() - 1 {
        let before = parts.drop_last();
        assert forall|j: int| i < j < before.len() implies !(#[trigger] before[j] is Name) by {
            assert(before[j] == parts[j]);
        }
        the_latest_name_counts(before, i);
    }
}

/// The latest archive that comes in is the one that is installed, whatever names
/// come before or after it.
pub proof fn the_latest_archive_counts(parts: Seq<FormPart>, i: int)
    requires
        0 <= i < parts.len(),
        parts[i] is Archive,
        forall|j: int| i < j < parts.len() ==> !(#[trigger] parts[j] is Archive),
    ensures
        form_of(parts).archive == Some(parts[i]->Archive_0),
    decreases parts.len(),
{
    assert(parts.last() == parts[parts.len() - 1]);
    if i < parts.len() - 1 {
        let before = parts.drop_last();
        assert forall|j: int| i < j < before.len() implies !(#[trigger] before[j] is Archive) by {
            assert(before[j] == parts[j]);
        }
        the_latest_archive_counts(before, i);
    }
}

/// What did not come in is not there.
pub proof fn what_did_not_come_is_not_there(parts: Seq<FormPart>)
    ensures
        (forall|j: int| 0 <= j < parts.len() ==> !(#[trigger] parts[j] is Name)) ==> form_of(
            parts,
        ).name is None,
        (forall|j: int| 0 <= j < parts.len() ==> !(#[trigger] parts[j] is Archive)) ==> form_of(
            parts,
        ).archive is None,
    decreases parts.len(),
{
    if parts.len() > 0 {
        let before = parts.drop_last();
        assert(parts.last() == parts[parts.len() - 1]);
        assert forall|j: int| 0 <= j < before.len() implies #[trigger] before[j] == parts[j] by {}
        what_did_not_come_is_not_there(before);
    }
}

/// A form is seen as the texts that it holds.
pub proof fn forms_are_seen_as_they_are(form: UploadForm)
    ensures
        form@.name is Some <==> form.name is Some,
        form.name matches Some(n) ==> form@.name == Some(n@),
        form@.archive is Some <==> form.archive is Some,
        form.archive matches Some(a) ==> form@.archive == Some(a@),
{
}

/// Whether an archive may be kept under a name, for the name it came with.
pub open spec fn may_store(file_name: Option<Seq<char>>, kept: Seq<char>) -> bool {
    match file_name {
        Some(f) => {
            ||| may_keep(f, Some(kept))
            ||| may_keep(f, None) && kept == fallback_name()
        },
        None => kept == fallback_name(),
    }
}

/// An archive is stored under the last part of the name it came with if that ends
/// in a dot and `zip` with something before it, and under `bot.zip` otherwise; but
/// for a drive and a bare extension, where it may be either.
pub proof fn archives_are_stored_by_name(file_name: Option<Seq<char>>, kept: Seq<char>)
    requires
        may_store(file_name, kept),
        file_name matches Some(f) ==> !is_bare_zip_on_a_drive(base_name(f)),
    ensures
        kept == match file_name {
            Some(f) => if ends_in_zip(base_name(f)) && base_name(f).len() > 4 {
                base_name(f)
            } else {
                "bot.zip"@
            },
            None => "bot.zip"@,
        },
{
    if let Some(f) = file_name {
        if may_keep(f, Some(kept)) {
            zip_names_are_kept(f, Some(kept));
        }
        if may_keep(f, None) {
            zip_names_are_kept(f, None);
        }
    }
}

/// What to install, from the archive and the name that came in.
pub open spec fn finished(archive: Option<String>, name: Option<String>) -> Option<
    (String, Option<String>),
> {
    match archive {
        Some(a) => Some((a, name)),
        None => None,
    }
}

/// An upload is taken exactly if an archive came in, with that archive and with
/// the name that came in or none. Otherwise it is said that the archive is missing.
pub proof fn uploads_need_an_archive(archive: Option<String>, name: Option<String>, a: String)
    ensures
        finished(archive, name) is Some <==> archive is Some,
        finished(Some(a), name) == Some((a, name)),
        no_archive_text() == "missing zip archive"@,
        fallback_name() == "bot.zip"@,
{
}

/// The name that is kept for a last part with an extension.
pub open spec fn zip_name(name: Seq<char>, extension: Option<Seq<char>>) -> Option<Seq<char>> {
    if name.len() > 0 && is_zip(extension) {
        Some(name)
    } else {
        None
    }
}

/// A last part is kept as it is exactly if there is one and its extension is `zip`,
/// whatever the case of each letter.
pub proof fn zip_extensions_are_kept(name: Seq<char>, extension: Option<Seq<char>>)
    ensures
        zip_name(name, extension) is Some <==> name.len() > 0 && (extension matches Some(e)
            && e.len() == 3 && (e[0] == 'z' || e[0] == 'Z') && (e[1] == 'i' || e[1] == 'I') && (e[2]
            == 'p' || e[2] == 'P')),
        zip_name(name, extension) matches Some(kept) ==> kept == name,
        base_name(name) == name ==> kept_with(name, extension) == zip_name(name, extension),
{
    reveal_strlit("zip");
    if let Some(e) = extension {
        let zip = "zip"@;
        assert(zip.len() == 3 && zip[0] == 'z' && zip[1] == 'i' && zip[2] == 'p');
        only_case_is_ignored(e, zip);
        if same_ignoring_case(e, zip) {
            assert(e[0] == zip[0] || differ_in_case(e[0], zip[0]));
            assert(e[1] == zip[1] || differ_in_case(e[1], zip[1]));
            assert(e[2] == zip[2] || differ_in_case(e[2], zip[2]));
        }
        if e.len() == 3 && (e[0] == 'z' || e[0] == 'Z') && (e[1] == 'i' || e[1] == 'I') && (e[2]
            == 'p' || e[2] == 'P') {
            assert forall|i: int| 0 <= i < e.len() implies #[trigger] e[i] == zip[i]
                || differ_in_case(e[i], zip[i]) by {
                assert(i == 0 || i == 1 || i == 2);
            }
        }
    }
}

} // verus!
