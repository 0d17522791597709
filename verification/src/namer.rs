//! The names a document passes through: the staged name it is claimed
//! under, the name of its PDF, and the marker that it is left with.

use vstd::prelude::*;
use vstd::string::*;

verus! {

/// The text `.html`.
pub open spec fn html_suffix() -> Seq<char> {
    seq!['.', 'h', 't', 'm', 'l']
}

/// The text `.pdf`.
pub open spec fn pdf_suffix() -> Seq<char> {
    seq!['.', 'p', 'd', 'f']
}

/// The text `.processed`.
pub open spec fn processed_suffix() -> Seq<char> {
    seq!['.', 'p', 'r', 'o', 'c', 'e', 's', 's', 'e', 'd']
}

/// The text `file://`.
pub open spec fn file_scheme() -> Seq<char> {
    seq!['f', 'i', 'l', 'e', ':', '/', '/']
}

/// `s` ends in `suffix`.
pub open spec fn ends_with(s: Seq<char>, suffix: Seq<char>) -> bool {
    s.len() >= suffix.len() && s.subrange(s.len() - suffix.len(), s.len() as int) == suffix
}

/// A digit of lower-case hexadecimal.
pub open spec fn is_lower_hex(c: char) -> bool {
    ('0' <= c && c <= '9') || ('a' <= c && c <= 'f')
}

/// The four places of an identifier that hold a hyphen.
pub open spec fn is_hyphen_place(i: int) -> bool {
    i == 8 || i == 13 || i == 18 || i == 23
}

/// The text of a random 128-bit identifier: 32 lower-case hexadecimal
/// digits in groups of 8, 4, 4, 4 and 12, with a hyphen between the groups.
/// The third group begins with the version, `4`, and the fourth with the
/// variant, one of `8`, `9`, `a` and `b`.
pub open spec fn is_identifier(id: Seq<char>) -> bool {
    &&& id.len() == 36
    &&& forall|i: int|
        0 <= i < 36 ==> if is_hyphen_place(i) {
            #[trigger] id[i] == '-'
        } else {
            is_lower_hex(id[i])
        }
    &&& id[14] == '4'
    &&& (id[19] == '8' || id[19] == '9' || id[19] == 'a' || id[19] == 'b')
}

/// `dir`, a `/`, and `name`.
pub open spec fn spec_join(dir: Seq<char>, name: Seq<char>) -> Seq<char> {
    dir + seq!['/'] + name
}

/// The staged path of the document claimed under `id`.
pub open spec fn spec_staged_path(input_dir: Seq<char>, id: Seq<char>) -> Seq<char> {
    spec_join(input_dir, id + html_suffix())
}

/// The name of the PDF made from the document once named `basename`: a
/// final `.html` gives way to `.pdf`; a name that does not end so is kept.
pub open spec fn spec_output_file_name(basename: Seq<char>) -> Seq<char> {
    if ends_with(basename, html_suffix()) {
        basename.subrange(0, basename.len() - 5) + pdf_suffix()
    } else {
        basename
    }
}

/// The marker name of the document once named `basename`: a name that ends
/// in `.html` is followed by `.processed`; a name that does not end so is
/// kept.
pub open spec fn spec_processed_file_name(basename: Seq<char>) -> Seq<char> {
    if ends_with(basename, html_suffix()) {
        basename + processed_suffix()
    } else {
        basename
    }
}

/// Where the PDF of the document once named `basename` is written.
pub open spec fn spec_output_path(output_dir: Seq<char>, basename: Seq<char>) -> Seq<char> {
    spec_join(output_dir, spec_output_file_name(basename))
}

/// Where the document once named `basename` rests after its PDF is written.
pub open spec fn spec_processed_path(input_dir: Seq<char>, basename: Seq<char>) -> Seq<char> {
    spec_join(input_dir, spec_processed_file_name(basename))
}

/// The address at which a renderer finds the file at `path`.
pub open spec fn spec_file_url(path: Seq<char>) -> Seq<char> {
    file_scheme() + path
}

/// A fresh random identifier. The body calls `uuid::Uuid::new_v4` and turns
/// the value into text with `to_string`, which for a `Uuid` writes the
/// hyphenated lower-case form. The contract claims that form, with the
/// version and variant digits that `new_v4` sets, and nothing of the other
/// digits, which are random.
#[verifier::external_body]
pub(crate) fn new_identifier() -> (r: String)
    ensures
        is_identifier(r@),
{
    uuid::Uuid::new_v4().to_string()
}

/// Whether `name` ends in `.html`.
pub fn ends_with_html(name: &str) -> (r: bool)
    ensures
        r == ends_with(name@, html_suffix()),
{
    let n: usize = name.unicode_len();
    if n < 5 {
        return false;
    }
    let r = name.get_char(n - 5) == '.' && name.get_char(n - 4) == 'h' && name.get_char(n - 3)
        == 't' && name.get_char(n - 2) == 'm' && name.get_char(n - 1) == 'l';
    proof {
        let tail = name@.subrange(n - 5, n as int);
        if r {
            assert(tail =~= html_suffix());
        } else {
            assert(tail[0] == name@[n - 5]);
            assert(tail[1] == name@[n - 4]);
            assert(tail[2] == name@[n - 3]);
            assert(tail[3] == name@[n - 2]);
            assert(tail[4] == name@[n - 1]);
        }
    }
    r
}

/// Joins a directory and a name with a `/`.
pub fn join(dir: &str, name: &str) -> (r: String)
    ensures
        r@ == spec_join(dir@, name@),
{
    let mut r = dir.to_owned();
    r.append("/");
    r.append(name);
    proof {
        reveal_strlit("/");
        assert("/"@ =~= seq!['/']);
    }
    r
}

/// The staged path for the identifier `id`: `<input_dir>/<id>.html`.
pub fn staged_path(input_dir: &str, id: &str) -> (r: String)
    ensures
        r@ == spec_staged_path(input_dir@, id@),
{
    let mut name = id.to_owned();
    name.append(".html");
    proof {
        reveal_strlit(".html");
        assert(".html"@ =~= html_suffix());
    }
    join(input_dir, name.as_str())
}

/// A staged path under a fresh random identifier.
pub fn stage_target(input_dir: &str) -> (r: String)
    ensures
        exists|id: Seq<char>| is_identifier(id) && r@ == spec_staged_path(input_dir@, id),
{
    let id = new_identifier();
    staged_path(input_dir, id.as_str())
}

/// The name of the PDF made from the document once named `basename`.
pub fn output_file_name(basename: &str) -> (r: String)
    ensures
        r@ == spec_output_file_name(basename@),
{
    if ends_with_html(basename) {
        let n: usize = basename.unicode_len();
        let mut r = basename.substring_char(0, n - 5).to_owned();
        r.append(".pdf");
        proof {
            reveal_strlit(".pdf");
            assert(".pdf"@ =~= pdf_suffix());
        }
        r
    } else {
        basename.to_owned()
    }
}

/// The marker name of the document once named `basename`.
pub fn processed_file_name(basename: &str) -> (r: String)
    ensures
        r@ == spec_processed_file_name(basename@),
{
    let mut r = basename.to_owned();
    if ends_with_html(basename) {
        r.append(".processed");
        proof {
            reveal_strlit(".processed");
            assert(".processed"@ =~= processed_suffix());
        }
    }
    r
}

/// Where the PDF of the document once named `basename` is written:
/// `<output_dir>/<name>.pdf`.
pub fn output_path(output_dir: &str, basename: &str) -> (r: String)
    ensures
        r@ == spec_output_path(output_dir@, basename@),
{
    let name = output_file_name(basename);
    join(output_dir, name.as_str())
}

/// Where the document once named `basename` rests after its PDF is
/// written: `<input_dir>/<name>.html.processed`.
pub fn processed_path(input_dir: &str, basename: &str) -> (r: String)
    ensures
        r@ == spec_processed_path(input_dir@, basename@),
{
    let name = processed_file_name(basename);
    join(input_dir, name.as_str())
}

/// The `file://` address of the file at `path`.
pub fn file_url(path: &str) -> (r: String)
    ensures
        r@ == spec_file_url(path@),
{
    let mut r = "file://".to_owned();
    r.append(path);
    proof {
        reveal_strlit("file://");
        assert("file://"@ =~= file_scheme());
    }
    r
}

} // verus!
