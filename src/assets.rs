//! The kiosk's local assets: the image gallery and the message of the day,
//! both under `<base>/public`.

use vstd::prelude::*;
use vstd::string::{StrSliceExecFns, StringExecFns};
use crate::text::{join_path, path_join};

verus! {

/// One entry of a directory listing: the entry's file name, or the reason it
/// could not be read.
pub type ListingEntry = Result<String, String>;

/// What reading the message file gave.
pub enum FileRead {
    /// No file stands at the path.
    Missing,
    /// The file is there but could not be read.
    Unreadable(String),
    /// The file's whole text.
    Contents(String),
}

/// Index of the last `.` in `s`, or -1 when there is none.
pub open spec fn last_dot(s: Seq<char>) -> int
    decreases s.len(),
{
    if s.len() == 0 {
        -1
    } else if s.last() == '.' {
        s.len() - 1
    } else {
        last_dot(s.drop_last())
    }
}

/// Extension of a file name as `std::path::Path::extension` gives it: the
/// text after the last `.`, unless there is no `.`, the only text before it
/// is empty, or the name is `..`.
pub open spec fn file_extension(name: Seq<char>) -> Option<Seq<char>> {
    let i = last_dot(name);
    if i <= 0 || name == ".."@ {
        None
    } else {
        Some(name.subrange(i + 1, name.len() as int))
    }
}

/// A file name whose extension is exactly `jpg`, `jpeg` or `png`.
pub open spec fn is_image_name(name: Seq<char>) -> bool {
    match file_extension(name) {
        Some(e) => e == "jpg"@ || e == "jpeg"@ || e == "png"@,
        None => false,
    }
}

/// Web path under which the gallery serves the file `name`.
pub open spec fn image_web_path(name: Seq<char>) -> Seq<char> {
    "/images/"@ + name
}

pub open spec fn entry_view(e: ListingEntry) -> Result<Seq<char>, Seq<char>> {
    match e {
        Ok(s) => Ok(s@),
        Err(s) => Err(s@),
    }
}

pub open spec fn entries_view(v: Seq<ListingEntry>) -> Seq<Result<Seq<char>, Seq<char>>> {
    v.map_values(|e: ListingEntry| entry_view(e))
}

/// Gallery of a listing: the web paths of its image files in listing order,
/// or the error of its first unreadable entry.
pub open spec fn gallery(entries: Seq<Result<Seq<char>, Seq<char>>>) -> Result<
    Seq<Seq<char>>,
    Seq<char>,
>
    decreases entries.len(),
{
    if entries.len() == 0 {
        Ok(Seq::empty())
    } else {
        match gallery(entries.drop_last()) {
            Err(e) => Err(e),
            Ok(paths) => match entries.last() {
                Err(e) => Err(e),
                Ok(name) => if is_image_name(name) {
                    Ok(paths.push(image_web_path(name)))
                } else {
                    Ok(paths)
                },
            },
        }
    }
}

pub open spec fn strings_view(v: Seq<String>) -> Seq<Seq<char>> {
    v.map_values(|s: String| s@)
}

/// What a read gave, as text.
pub open spec fn file_read_view(read: FileRead) -> Option<Result<Seq<char>, Seq<char>>> {
    match read {
        FileRead::Missing => None,
        FileRead::Unreadable(e) => Some(Err(e@)),
        FileRead::Contents(t) => Some(Ok(t@)),
    }
}

/// Directory of the gallery's images.
pub open spec fn image_dir_path(base: Seq<char>) -> Seq<char> {
    path_join(path_join(base, "public"@), "images"@)
}

/// Path of the message-of-the-day file.
pub open spec fn message_file_path(base: Seq<char>) -> Seq<char> {
    path_join(path_join(base, "public"@), "message.txt"@)
}

/// What reading the message gives: the file's text, or an error.
pub open spec fn message_view(path: Seq<char>, read: FileRead) -> Result<Seq<char>, Seq<char>> {
    match read {
        FileRead::Missing => Err("Message file not found at path: "@ + path),
        FileRead::Unreadable(e) => Err(e@),
        FileRead::Contents(t) => Ok(t@),
    }
}

/// The directory that holds the gallery's images.
pub fn image_dir(base: &str) -> (r: String)
    ensures
        r@ == image_dir_path(base@),
{
    let public = join_path(base, "public");
    join_path(public.as_str(), "images")
}

/// The path of the message-of-the-day file.
pub fn message_file(base: &str) -> (r: String)
    ensures
        r@ == message_file_path(base@),
{
    let public = join_path(base, "public");
    join_path(public.as_str(), "message.txt")
}

/// Position of the last `.` in `name`, if any.
fn find_last_dot(name: &str) -> (r: Option<usize>)
    ensures
        r is None <==> last_dot(name@) == -1,
        r is Some ==> r->Some_0 == last_dot(name@),
{
    let len = name.unicode_len();
    let mut i: usize = len;
    assert(name@.take(len as int) =~= name@);
    while i > 0
        invariant
            i <= len == name@.len(),
            last_dot(name@) == last_dot(name@.take(i as int)),
        decreases i,
    {
        let c = name.get_char(i - 1);
        if c == '.' {
            assert(name@.take(i as int).last() == '.');
            return Some(i - 1);
        }
        assert(name@.take(i as int).drop_last() =~= name@.take(i - 1));
        i = i - 1;
    }
    assert(name@.take(0) =~= Seq::<char>::empty());
    None
}

/// Whether `name` is the file name of an image of the gallery.
pub fn is_image_file(name: &str) -> (r: bool)
    ensures
        r == is_image_name(name@),
{
    let len = name.unicode_len();
    proof {
        lemma_last_dot_range(name@);
    }
    let dot = match find_last_dot(name) {
        None => return false,
        Some(d) => d,
    };
    let whole = String::from_str(name);
    if dot == 0 || whole == String::from_str("..") {
        return false;
    }
    let ext = String::from_str(name.substring_char(dot + 1, len));
    ext == String::from_str("jpg") || ext == String::from_str("jpeg") || ext == String::from_str(
        "png",
    )
}

proof fn lemma_last_dot_range(s: Seq<char>)
    ensures
        -1 <= last_dot(s) < s.len(),
        last_dot(s) >= 0 ==> s[last_dot(s)] == '.',
    decreases s.len(),
{
    if s.len() > 0 && s.last() != '.' {
        lemma_last_dot_range(s.drop_last());
    }
}

/// The gallery of a directory listing: the web path of each image file, in
/// listing order, or the error of the first entry that could not be read.
pub fn collect_images(entries: &Vec<ListingEntry>) -> (r: Result<Vec<String>, String>)
    ensures
        r is Ok <==> gallery(entries_view(entries@)) is Ok,
        r is Ok ==> strings_view(r->Ok_0@) == gallery(entries_view(entries@))->Ok_0,
        r is Err ==> r->Err_0@ == gallery(entries_view(entries@))->Err_0,
{
    let mut paths: Vec<String> = Vec::new();
    let mut i: usize = 0;
    assert(entries_view(entries@.take(0)) =~= Seq::empty());
    assert(strings_view(paths@) =~= Seq::empty());
    while i < entries.len()
        invariant
            i <= entries@.len(),
            gallery(entries_view(entries@.take(i as int))) == Ok::<Seq<Seq<char>>, Seq<char>>(
                strings_view(paths@),
            ),
        decreases entries@.len() - i,
    {
        let ghost before = entries_view(entries@.take(i as int));
        assert(entries_view(entries@.take(i + 1)).drop_last() =~= before);
        assert(entries_view(entries@.take(i + 1)).last() == entry_view(entries@[i as int]));
        assert(entries_view(entries@).take(i + 1) =~= entries_view(entries@.take(i + 1)));
        match &entries[i] {
            Err(e) => {
                let r = e.clone();
                proof {
                    lemma_gallery_error_sticks(entries_view(entries@), i as int + 1);
                }
                return Err(r);
            },
            Ok(name) => {
                let ghost old_paths = paths@;
                if is_image_file(name.as_str()) {
                    let p = String::from_str("/images/").concat(name.as_str());
                    paths.push(p);
                    assert(strings_view(paths@) =~= strings_view(old_paths).push(p@));
                }
            },
        }
        i = i + 1;
    }
    assert(entries@.take(i as int) =~= entries@);
    Ok(paths)
}

proof fn lemma_gallery_error_sticks(s: Seq<Result<Seq<char>, Seq<char>>>, k: int)
    requires
        0 <= k <= s.len(),
        gallery(s.take(k)) is Err,
    ensures
        gallery(s) == gallery(s.take(k)),
    decreases s.len() - k,
{
    if k < s.len() {
        assert(s.take(k + 1).drop_last() =~= s.take(k));
        lemma_gallery_error_sticks(s, k + 1);
    } else {
        assert(s.take(k) =~= s);
    }
}

/// The message of the day from what reading `path` gave.
pub fn message_outcome(path: &str, read: FileRead) -> (r: Result<String, String>)
    ensures
        r is Ok <==> message_view(path@, read) is Ok,
        r is Ok ==> r->Ok_0@ == message_view(path@, read)->Ok_0,
        r is Err ==> r->Err_0@ == message_view(path@, read)->Err_0,
{
    match read {
        FileRead::Missing => Err(String::from_str("Message file not found at path: ").concat(path)),
        FileRead::Unreadable(e) => Err(e),
        FileRead::Contents(t) => Ok(t),
    }
}

/// Listing and reading depend on what the directory and the file hold alone:
/// two listings with the same entries give the same gallery, and two reads
/// of the same path with the same outcome give the same message.
pub proof fn lemma_assets_idempotent(
    a: Seq<ListingEntry>,
    b: Seq<ListingEntry>,
    path: Seq<char>,
    read1: FileRead,
    read2: FileRead,
)
    requires
        entries_view(a) == entries_view(b),
        file_read_view(read1) == file_read_view(read2),
    ensures
        gallery(entries_view(a)) == gallery(entries_view(b)),
        message_view(path, read1) == message_view(path, read2),
{
}

} // verus!
