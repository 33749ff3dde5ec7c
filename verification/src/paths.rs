//! File names: trimming a title and placing it beside the file it names.

use vstd::prelude::*;
use vstd::string::*;

verus! {

/// The characters that carry Unicode's `White_Space` property.
pub open spec fn is_white_space(c: char) -> bool {
    let n = c as u32;
    ||| 0x09 <= n <= 0x0D
    ||| n == 0x20
    ||| n == 0x85
    ||| n == 0xA0
    ||| n == 0x1680
    ||| 0x2000 <= n <= 0x200A
    ||| n == 0x2028
    ||| n == 0x2029
    ||| n == 0x202F
    ||| n == 0x205F
    ||| n == 0x3000
}

/// `s` without its leading white space.
pub open spec fn trim_front(s: Seq<char>) -> Seq<char>
    decreases s.len(),
{
    if s.len() > 0 && is_white_space(s.first()) {
        trim_front(s.drop_first())
    } else {
        s
    }
}

/// `s` without its trailing white space.
pub open spec fn trim_back(s: Seq<char>) -> Seq<char>
    decreases s.len(),
{
    if s.len() > 0 && is_white_space(s.last()) {
        trim_back(s.drop_last())
    } else {
        s
    }
}

/// `s` without leading and trailing white space.
pub open spec fn trimmed(s: Seq<char>) -> Seq<char> {
    trim_back(trim_front(s))
}

/// The extension that every package file carries, without its dot.
pub open spec fn package_extension() -> Seq<char> {
    seq!['e', 'p', 'u', 'b']
}

/// The file name of the package titled `title`: the trimmed title, a dot and
/// the package extension.
pub open spec fn package_file_name(title: Seq<char>) -> Seq<char> {
    trimmed(title) + seq!['.'] + package_extension()
}

/// What `std::path::PathBuf::set_file_name` leaves when the path `path` is
/// given the file name `name`, on the platform the library is built for.
pub uninterp spec fn spec_with_file_name(path: Seq<char>, name: Seq<char>) -> Seq<char>;

/// What `std::path::Path::extension` finds in `path`, on the platform the
/// library is built for.
pub uninterp spec fn spec_extension(path: Seq<char>) -> Option<Seq<char>>;

/// What `==` of `std::path::Path` goes by: two paths are equal exactly where
/// they have the same key. The standard library compares paths component by
/// component, so that `a//b` and `a/b` are one path.
pub uninterp spec fn spec_path_key(path: Seq<char>) -> Seq<Seq<char>>;

/// Whether `a` and `b` are one path.
pub open spec fn spec_same_path(a: Seq<char>, b: Seq<char>) -> bool {
    spec_path_key(a) == spec_path_key(b)
}

/// Where the package at `path` belongs once it is named after `title`: the
/// same directory, under the package file name of the title.
pub open spec fn spec_destination(path: Seq<char>, title: Seq<char>) -> Seq<char> {
    spec_with_file_name(path, package_file_name(title))
}

/// Whether `path` ends in the package extension.
pub open spec fn spec_has_package_extension(path: Seq<char>) -> bool {
    spec_extension(path) == Some(package_extension())
}

/// Trusted: `str::trim`. Claims that it removes exactly the leading and the
/// trailing characters with the `White_Space` property, as its documentation
/// says.
#[verifier::external_body]
fn trim(text: &str) -> (r: String)
    ensures
        r@ == trimmed(text@),
{
    text.trim().to_string()
}

/// Trusted: `std::path::PathBuf::set_file_name`. Claims only that the new
/// path is determined by the old path and the name.
#[verifier::external_body]
fn with_file_name(path: &str, name: &str) -> (r: String)
    ensures
        r@ == spec_with_file_name(path@, name@),
{
    let mut target = std::path::PathBuf::from(path);
    target.set_file_name(name);
    target.to_string_lossy().into_owned()
}

/// Trusted: `std::path::Path::extension`. Claims only that the extension is
/// determined by the path.
#[verifier::external_body]
fn extension(path: &str) -> (r: Option<String>)
    ensures
        r is Some == spec_extension(path@) is Some,
        r is Some ==> r.unwrap()@ == spec_extension(path@).unwrap(),
{
    std::path::Path::new(path).extension().map(|found| found.to_string_lossy().into_owned())
}

/// Trusted: `==` of `std::path::Path`. Claims that it is an equivalence on
/// paths, as `Eq` requires: it compares a key of each path.
#[verifier::external_body]
pub(crate) fn same_path(a: &str, b: &str) -> (r: bool)
    ensures
        r == (spec_path_key(a@) == spec_path_key(b@)),
{
    std::path::Path::new(a) == std::path::Path::new(b)
}

/// The file name for a package titled `title`.
pub fn file_name_for(title: &str) -> (r: String)
    ensures
        r@ == package_file_name(title@),
{
    proof {
        reveal_strlit(".epub");
        assert(".epub"@ =~= seq!['.'] + package_extension());
    }
    let name = trim(title).concat(".epub");
    assert(name@ =~= package_file_name(title@));
    name
}

/// The path that the package at `path` gets when it is named after `title`.
pub fn destination(path: &str, title: &str) -> (r: String)
    ensures
        r@ == spec_destination(path@, title@),
{
    let name = file_name_for(title);
    with_file_name(path, name.as_str())
}

/// Whether a file found below a directory counts as a package: its extension
/// is the package extension, letter for letter.
pub fn has_package_extension(path: &str) -> (r: bool)
    ensures
        r == spec_has_package_extension(path@),
{
    match extension(path) {
        Some(found) => {
            proof {
                reveal_strlit("epub");
                assert("epub"@ =~= package_extension());
            }
            let wanted = String::from_str("epub");
            found == wanted
        },
        None => false,
    }
}

} // verus!
