//! Reading a source path and naming the destination file.

use vstd::prelude::*;
use crate::encoder::{extension_for, target_extension};
use crate::error::{outcome_view, CompressError, CompressErrorView, NamePart};

verus! {

/// What came of looking for a part of a path.
#[derive(Debug, Clone, PartialEq, Eq)]
pub enum PathPart {
    /// The path has no such part.
    Absent,
    /// The part is there, but it is not valid Unicode.
    NotText,
    /// The part, as text.
    Text(String),
}

/// The mathematical content of [`PathPart`].
pub enum PathPartView {
    Absent,
    NotText,
    Text(Seq<char>),
}

impl View for PathPart {
    type V = PathPartView;

    open spec fn view(&self) -> PathPartView {
        match self {
            PathPart::Absent => PathPartView::Absent,
            PathPart::NotText => PathPartView::NotText,
            PathPart::Text(text) => PathPartView::Text(text@),
        }
    }
}

/// What `std::path::Path::file_name` finds in `path`, read as text: the
/// final component, by the path syntax of the platform that the library is
/// built for.
pub uninterp spec fn file_name_of(path: Seq<char>) -> PathPartView;

/// What `std::path::Path::file_stem` finds in `path`, read as text: the
/// file name without its last extension.
pub uninterp spec fn file_stem_of(path: Seq<char>) -> PathPartView;

/// The place of the last dot in a name, or -1 where it has none.
pub open spec fn last_dot(name: Seq<char>) -> int
    decreases name.len(),
{
    if name.len() == 0 {
        -1
    } else if name.last() == '.' {
        name.len() - 1
    } else {
        last_dot(name.drop_last())
    }
}

/// The stem of a file name: the whole name where it has no dot or only a
/// leading one, else what stands before its last dot.
pub open spec fn stem_in(name: Seq<char>) -> Seq<char> {
    if last_dot(name) <= 0 {
        name
    } else {
        name.subrange(0, last_dot(name))
    }
}

/// How the stem found in a path goes with the file name found in the same
/// path: no stem without a file name, and the stem of the name where the
/// name is text.
pub open spec fn stem_follows_name(name: PathPartView, stem: PathPartView) -> bool {
    match name {
        PathPartView::Absent => stem is Absent,
        PathPartView::Text(text) => stem == PathPartView::Text(stem_in(text)),
        PathPartView::NotText => !(stem is Absent),
    }
}

/// Whether, in `path`, the stem goes with the file name.
pub open spec fn stem_goes_with_name(path: Seq<char>) -> bool {
    stem_follows_name(file_name_of(path), file_stem_of(path))
}

/// Calls `std::path::Path::file_name` on `path` and `to_str` on what it
/// finds. Trusted: the result is a function of the path's characters alone,
/// named [`file_name_of`]. Nothing is claimed of which component it is.
#[verifier::external_body]
fn path_file_name(path: &str) -> (part: PathPart)
    ensures
        part@ == file_name_of(path@),
{
    match std::path::Path::new(path).file_name() {
        None => PathPart::Absent,
        Some(name) => match name.to_str() {
            None => PathPart::NotText,
            Some(text) => PathPart::Text(text.to_string()),
        },
    }
}

/// Calls `std::path::Path::file_stem` on `path` and `to_str` on what it
/// finds. Trusted: the result is a function of the path's characters alone,
/// named [`file_stem_of`], and it goes with the file name that
/// `Path::file_name` finds in the same path as the documentation of
/// `file_stem` says: there is no stem without a file name; the stem is the
/// whole file name where that has no dot, or one leading dot and no other;
/// else it is what stands before the last dot. Nothing is claimed of the
/// file name itself.
#[verifier::external_body]
fn path_file_stem(path: &str) -> (part: PathPart)
    ensures
        part@ == file_stem_of(path@),
        stem_follows_name(file_name_of(path@), part@),
{
    match std::path::Path::new(path).file_stem() {
        None => PathPart::Absent,
        Some(stem) => match stem.to_str() {
            None => PathPart::NotText,
            Some(text) => PathPart::Text(text.to_string()),
        },
    }
}

/// The text of a part that must be there, or the error for its absence.
pub open spec fn text_or_error(part: PathPartView, which: NamePart) -> Result<
    Seq<char>,
    CompressErrorView,
> {
    match part {
        PathPartView::Text(text) => Ok(text),
        PathPartView::NotText => Err(CompressErrorView::InvalidEncoding { part: which }),
        PathPartView::Absent => match which {
            NamePart::FileName => Err(CompressErrorView::MissingFileName),
            NamePart::Stem => Err(CompressErrorView::MissingStem),
        },
    }
}

/// `{dest_dir}/{stem}.{extension}`.
pub open spec fn joined(dest_dir: Seq<char>, stem: Seq<char>, extension: Seq<char>) -> Seq<char> {
    dest_dir + seq!['/'] + stem + seq!['.'] + extension
}

/// The file name and the target extension, once the file name has been
/// looked up: the name is needed first, then a supported format tag.
pub open spec fn name_and_extension_of(name: PathPartView, tag: Seq<char>) -> Result<
    (Seq<char>, Seq<char>),
    CompressErrorView,
> {
    match text_or_error(name, NamePart::FileName) {
        Err(error) => Err(error),
        Ok(text) => match extension_for(tag) {
            None => Err(CompressErrorView::UnsupportedFormat { tag }),
            Some(extension) => Ok((text, extension)),
        },
    }
}

/// The destination, once the stem has been looked up.
pub open spec fn placed(stem: PathPartView, dest_dir: Seq<char>, extension: Seq<char>) -> Result<
    Seq<char>,
    CompressErrorView,
> {
    match text_or_error(stem, NamePart::Stem) {
        Err(error) => Err(error),
        Ok(text) => Ok(joined(dest_dir, text, extension)),
    }
}

/// Where the compressed copy of `src_path` goes: into `dest_dir`, under the
/// stem of the source's file name and the extension of the requested format.
pub open spec fn destination_of(src_path: Seq<char>, dest_dir: Seq<char>, tag: Seq<char>) -> Result<
    Seq<char>,
    CompressErrorView,
> {
    match name_and_extension_of(file_name_of(src_path), tag) {
        Err(error) => Err(error),
        Ok((name, extension)) => placed(file_stem_of(name), dest_dir, extension),
    }
}

/// The text of a part that must be there.
///
/// `Absent` gives `MissingFileName` or `MissingStem`, by the part that was
/// looked for; `NotText` gives `InvalidEncoding`.
pub fn required_text(part: PathPart, which: NamePart) -> (text: Result<String, CompressError>)
    ensures
        outcome_view(text) == text_or_error(part@, which),
{
    match part {
        PathPart::Text(text) => Ok(text),
        PathPart::NotText => Err(CompressError::InvalidEncoding { part: which }),
        PathPart::Absent => match which {
            NamePart::FileName => Err(CompressError::MissingFileName),
            NamePart::Stem => Err(CompressError::MissingStem),
        },
    }
}

/// Joins directory, stem and extension with a forward slash and a dot.
/// Nothing is checked: not that the directory exists, not that the file
/// does not.
pub fn join_destination(dest_dir: &str, stem: &str, extension: &str) -> (path: String)
    ensures
        path@ == joined(dest_dir@, stem@, extension@),
{
    proof {
        reveal_strlit("/");
        reveal_strlit(".");
        assert("/"@ =~= seq!['/']);
        assert("."@ =~= seq!['.']);
    }
    String::from_str(dest_dir).concat("/").concat(stem).concat(".").concat(extension)
}

/// What is known of a source once its file name has been looked up: the
/// name and the extension that its compressed copy gets.
///
/// Fails with `MissingFileName` or `InvalidEncoding` where no file name was
/// found or read, else with `UnsupportedFormat`, carrying the tag, where the
/// tag names no supported format.
pub fn name_and_extension(name: PathPart, tag: &str) -> (found: Result<
    (String, &'static str),
    CompressError,
>)
    ensures
        match found {
            Ok((text, extension)) => name_and_extension_of(name@, tag@) == Ok::<
                (Seq<char>, Seq<char>),
                CompressErrorView,
            >((text@, extension@)),
            Err(error) => name_and_extension_of(name@, tag@) == Err::<
                (Seq<char>, Seq<char>),
                CompressErrorView,
            >(error@),
        },
{
    let text = match required_text(name, NamePart::FileName) {
        Ok(text) => text,
        Err(error) => {
            return Err(error);
        },
    };
    match target_extension(tag) {
        Some(extension) => Ok((text, extension)),
        None => Err(CompressError::UnsupportedFormat { tag: String::from_str(tag) }),
    }
}

/// The destination of a source once its stem has been looked up.
///
/// Fails with `MissingStem` or `InvalidEncoding` where no stem was found or
/// read.
pub fn place(stem: PathPart, dest_dir: &str, extension: &str) -> (dest: Result<
    String,
    CompressError,
>)
    ensures
        outcome_view(dest) == placed(stem@, dest_dir@, extension@),
{
    match required_text(stem, NamePart::Stem) {
        Ok(text) => Ok(join_destination(dest_dir, text.as_str(), extension)),
        Err(error) => Err(error),
    }
}

/// Derives the destination path of one source: `{dest_dir}/{stem}.{ext}`,
/// with the stem of the source's file name and the extension of the
/// requested format.
///
/// Fails with `MissingFileName` or `InvalidEncoding` where the source has no
/// readable file name, else with `UnsupportedFormat` where the tag names no
/// supported format, else with `MissingStem` or `InvalidEncoding` where the
/// file name has no readable stem.
///
/// The stem is looked up in the file name, as a path of its own. Where it
/// was looked up, it goes with the file name found in that path.
pub fn destination_path(src_path: &str, dest_dir: &str, tag: &str) -> (dest: Result<
    String,
    CompressError,
>)
    ensures
        outcome_view(dest) == destination_of(src_path@, dest_dir@, tag@),
        name_and_extension_of(file_name_of(src_path@), tag@) matches Ok(found)
            ==> stem_goes_with_name(found.0),
{
    match name_and_extension(path_file_name(src_path), tag) {
        Ok((name, extension)) => place(path_file_stem(name.as_str()), dest_dir, extension),
        Err(error) => Err(error),
    }
}

/// Whether a text holds a dot.
pub open spec fn has_dot(text: Seq<char>) -> bool {
    exists|i: int| 0 <= i < text.len() && text[i] == '.'
}

/// Whether `name` is the file name of `src_path`, reads as a file name of
/// its own, and has the stem that goes with it.
pub open spec fn plain_name(src_path: Seq<char>, name: Seq<char>) -> bool {
    &&& file_name_of(src_path) == PathPartView::Text(name)
    &&& file_name_of(name) == PathPartView::Text(name)
    &&& stem_goes_with_name(name)
}

/// A name without a dot is its own stem.
pub proof fn lemma_stem_without_dot(name: Seq<char>)
    requires
        !has_dot(name),
    ensures
        last_dot(name) == -1,
        stem_in(name) == name,
    decreases name.len(),
{
    if name.len() > 0 {
        assert(name[name.len() - 1] != '.');
        let front = name.drop_last();
        assert forall|i: int| 0 <= i < front.len() implies front[i] != '.' by {
            assert(front[i] == name[i]);
        }
        lemma_stem_without_dot(front);
    }
}

/// The stem of `{stem}.{extension}` is `stem`, where the stem is not empty
/// and the extension holds no dot.
pub proof fn lemma_stem_of_dotted_name(stem: Seq<char>, extension: Seq<char>)
    requires
        stem.len() > 0,
        !has_dot(extension),
    ensures
        last_dot(stem + seq!['.'] + extension) == stem.len(),
        stem_in(stem + seq!['.'] + extension) == stem,
    decreases extension.len(),
{
    let name = stem + seq!['.'] + extension;
    if extension.len() == 0 {
        assert(name.last() == '.');
    } else {
        let shorter = extension.drop_last();
        assert(extension[extension.len() - 1] != '.');
        assert(name.last() == extension.last());
        assert forall|i: int| 0 <= i < shorter.len() implies shorter[i] != '.' by {
            assert(shorter[i] == extension[i]);
        }
        assert(name.drop_last() =~= stem + seq!['.'] + shorter);
        lemma_stem_of_dotted_name(stem, shorter);
    }
    assert(name.subrange(0, stem.len() as int) =~= stem);
}

/// The destination of a source with a plain file name, in closed form: the
/// stem of the name, in the directory, under the extension of the format.
pub proof fn lemma_destination_of_plain_name(
    src_path: Seq<char>,
    name: Seq<char>,
    dest_dir: Seq<char>,
    tag: Seq<char>,
)
    requires
        plain_name(src_path, name),
    ensures
        match extension_for(tag) {
            Some(extension) => destination_of(src_path, dest_dir, tag) == Ok::<
                Seq<char>,
                CompressErrorView,
            >(joined(dest_dir, stem_in(name), extension)),
            None => destination_of(src_path, dest_dir, tag) == Err::<Seq<char>, CompressErrorView>(
                CompressErrorView::UnsupportedFormat { tag },
            ),
        },
{
}

} // verus!
