//! File classification: decide from a path's extension which reader handles
//! the file. The comparison is ASCII-case-insensitive; unknown or missing
//! extensions classify as plain text.

use vstd::prelude::*;
use vstd::string::StrSliceExecFns;

verus! {

/// The category assigned to a file from its extension, determining which
/// extractor handles it.
#[derive(Clone, Copy, Debug, PartialEq, Eq, Structural)]
pub enum FileClassification {
    Text,
    Pdf,
    Image,
}

/// `u` is the scalar value of an ASCII uppercase letter.
pub open spec fn is_ascii_uppercase(u: int) -> bool {
    'A' as u32 <= u <= 'Z' as u32
}

/// The two characters are equal up to ASCII letter case.
pub open spec fn chars_eq_ignore_case(a: char, b: char) -> bool {
    ||| a as u32 == b as u32
    ||| (is_ascii_uppercase(a as u32 as int) && a as u32 + 32 == b as u32)
    ||| (is_ascii_uppercase(b as u32 as int) && b as u32 + 32 == a as u32)
}

/// The two strings are equal up to ASCII letter case.
pub open spec fn seq_eq_ignore_case(a: Seq<char>, b: Seq<char>) -> bool {
    &&& a.len() == b.len()
    &&& forall|i: int| 0 <= i < a.len() ==> #[trigger] chars_eq_ignore_case(a[i], b[i])
}

/// Index of the last occurrence of `c` in `s`, or -1 when `c` does not occur.
pub open spec fn spec_last_index_of(s: Seq<char>, c: char) -> int
    decreases s.len(),
{
    if s.len() == 0 {
        -1
    } else if s[s.len() - 1] == c {
        s.len() - 1
    } else {
        spec_last_index_of(s.drop_last(), c)
    }
}

/// The final component of a path: everything after the last `/`.
pub open spec fn file_name_of(path: Seq<char>) -> Seq<char> {
    path.subrange(spec_last_index_of(path, '/') + 1, path.len() as int)
}

/// The extension of a path: the part of its file name after the last `.`,
/// unless the name has no dot, or only a leading one (a hidden file).
pub open spec fn extension_of(path: Seq<char>) -> Option<Seq<char>> {
    let name = file_name_of(path);
    let dot = spec_last_index_of(name, '.');
    if dot <= 0 {
        None
    } else {
        Some(name.subrange(dot + 1, name.len() as int))
    }
}

/// The fixed recognized set of image extensions, up to letter case.
pub open spec fn spec_is_image_extension(ext: Seq<char>) -> bool {
    ||| seq_eq_ignore_case(ext, "png"@)
    ||| seq_eq_ignore_case(ext, "jpg"@)
    ||| seq_eq_ignore_case(ext, "jpeg"@)
    ||| seq_eq_ignore_case(ext, "tiff"@)
    ||| seq_eq_ignore_case(ext, "tif"@)
    ||| seq_eq_ignore_case(ext, "gif"@)
    ||| seq_eq_ignore_case(ext, "bmp"@)
    ||| seq_eq_ignore_case(ext, "webp"@)
    ||| seq_eq_ignore_case(ext, "heic"@)
    ||| seq_eq_ignore_case(ext, "heif"@)
}

/// What `classify` assigns: `pdf` maps to `Pdf`, a recognized image
/// extension to `Image`, and everything else (including no extension)
/// to `Text`.
pub open spec fn spec_classify(path: Seq<char>) -> FileClassification {
    match extension_of(path) {
        None => FileClassification::Text,
        Some(ext) => if seq_eq_ignore_case(ext, "pdf"@) {
            FileClassification::Pdf
        } else if spec_is_image_extension(ext) {
            FileClassification::Image
        } else {
            FileClassification::Text
        },
    }
}

proof fn lemma_last_index_of_props(s: Seq<char>, c: char)
    ensures
        -1 <= spec_last_index_of(s, c) < s.len(),
        spec_last_index_of(s, c) >= 0 ==> s[spec_last_index_of(s, c)] == c,
        forall|j: int| spec_last_index_of(s, c) < j < s.len() ==> s[j] != c,
    decreases s.len(),
{
    if s.len() == 0 {
    } else if s[s.len() - 1] == c {
    } else {
        lemma_last_index_of_props(s.drop_last(), c);
        assert(forall|j: int| 0 <= j < s.len() - 1 ==> s.drop_last()[j] == s[j]);
    }
}

fn chars_eq_ci(a: char, b: char) -> (r: bool)
    ensures
        r == chars_eq_ignore_case(a, b),
{
    let au = a as u32;
    let bu = b as u32;
    au == bu || ('A' as u32 <= au && au <= 'Z' as u32 && au + 32 == bu) || ('A' as u32 <= bu
        && bu <= 'Z' as u32 && bu + 32 == au)
}

/// Index of the last occurrence of `c` in `s`, if any.
fn last_char_index(s: &str, c: char) -> (r: Option<usize>)
    ensures
        r matches Some(i) ==> i < s@.len() && spec_last_index_of(s@, c) == i,
        r is None ==> spec_last_index_of(s@, c) == -1,
{
    let n = s.unicode_len();
    let mut i = n;
    while i > 0
        invariant
            i <= n,
            n == s@.len(),
            forall|j: int| i <= j < n ==> s@[j] != c,
        decreases i,
    {
        i = i - 1;
        if s.get_char(i) == c {
            proof {
                lemma_last_index_of_props(s@, c);
            }
            return Some(i);
        }
    }
    proof {
        lemma_last_index_of_props(s@, c);
    }
    None
}

/// The two strings are equal up to ASCII letter case.
pub fn str_eq_ignore_case(a: &str, b: &str) -> (r: bool)
    ensures
        r == seq_eq_ignore_case(a@, b@),
{
    let an = a.unicode_len();
    let bn = b.unicode_len();
    if an != bn {
        return false;
    }
    let mut i: usize = 0;
    while i < an
        invariant
            i <= an,
            an == a@.len(),
            bn == b@.len(),
            an == bn,
            forall|j: int| 0 <= j < i ==> #[trigger] chars_eq_ignore_case(a@[j], b@[j]),
        decreases an - i,
    {
        if !chars_eq_ci(a.get_char(i), b.get_char(i)) {
            return false;
        }
        i = i + 1;
    }
    true
}

fn is_image_extension(ext: &str) -> (r: bool)
    ensures
        r == spec_is_image_extension(ext@),
{
    str_eq_ignore_case(ext, "png") || str_eq_ignore_case(ext, "jpg") || str_eq_ignore_case(
        ext,
        "jpeg",
    ) || str_eq_ignore_case(ext, "tiff") || str_eq_ignore_case(ext, "tif") || str_eq_ignore_case(
        ext,
        "gif",
    ) || str_eq_ignore_case(ext, "bmp") || str_eq_ignore_case(ext, "webp") || str_eq_ignore_case(
        ext,
        "heic",
    ) || str_eq_ignore_case(ext, "heif")
}

/// The case-insensitive string equality is symmetric.
pub proof fn lemma_seq_eq_ignore_case_symmetric(a: Seq<char>, b: Seq<char>)
    requires
        seq_eq_ignore_case(a, b),
    ensures
        seq_eq_ignore_case(b, a),
{
    assert forall|i: int| 0 <= i < b.len() implies #[trigger] chars_eq_ignore_case(
        b[i],
        a[i],
    ) by {
        assert(chars_eq_ignore_case(a[i], b[i]));
    }
}

/// The case-insensitive string equality is transitive.
pub proof fn lemma_seq_eq_ignore_case_transitive(a: Seq<char>, b: Seq<char>, c: Seq<char>)
    requires
        seq_eq_ignore_case(a, b),
        seq_eq_ignore_case(b, c),
    ensures
        seq_eq_ignore_case(a, c),
{
    assert forall|i: int| 0 <= i < a.len() implies #[trigger] chars_eq_ignore_case(
        a[i],
        c[i],
    ) by {
        assert(chars_eq_ignore_case(a[i], b[i]));
        assert(chars_eq_ignore_case(b[i], c[i]));
    }
}

proof fn lemma_eq_ci_same_relation(e1: Seq<char>, e2: Seq<char>, l: Seq<char>)
    requires
        seq_eq_ignore_case(e1, e2),
    ensures
        seq_eq_ignore_case(e1, l) == seq_eq_ignore_case(e2, l),
{
    if seq_eq_ignore_case(e1, l) {
        lemma_seq_eq_ignore_case_symmetric(e1, e2);
        lemma_seq_eq_ignore_case_transitive(e2, e1, l);
    }
    if seq_eq_ignore_case(e2, l) {
        lemma_seq_eq_ignore_case_transitive(e1, e2, l);
    }
}

/// Law: classification reads the extension only up to ASCII letter case.
/// Two paths whose extensions agree up to case — or that both lack one —
/// classify alike; `photo.PNG` is an image exactly as `photo.png` is.
pub proof fn lemma_classify_case_insensitive(p1: Seq<char>, p2: Seq<char>)
    requires
        (extension_of(p1) is Some) == (extension_of(p2) is Some),
        extension_of(p1) is Some ==> seq_eq_ignore_case(
            extension_of(p1).unwrap(),
            extension_of(p2).unwrap(),
        ),
    ensures
        spec_classify(p1) == spec_classify(p2),
{
    if extension_of(p1) is Some {
        let e1 = extension_of(p1).unwrap();
        let e2 = extension_of(p2).unwrap();
        lemma_eq_ci_same_relation(e1, e2, "pdf"@);
        lemma_eq_ci_same_relation(e1, e2, "png"@);
        lemma_eq_ci_same_relation(e1, e2, "jpg"@);
        lemma_eq_ci_same_relation(e1, e2, "jpeg"@);
        lemma_eq_ci_same_relation(e1, e2, "tiff"@);
        lemma_eq_ci_same_relation(e1, e2, "tif"@);
        lemma_eq_ci_same_relation(e1, e2, "gif"@);
        lemma_eq_ci_same_relation(e1, e2, "bmp"@);
        lemma_eq_ci_same_relation(e1, e2, "webp"@);
        lemma_eq_ci_same_relation(e1, e2, "heic"@);
        lemma_eq_ci_same_relation(e1, e2, "heif"@);
    }
}

/// Law: every path whose extension is one of the recognized image
/// extensions, in any letter case, classifies as `Image` — the `pdf`
/// branch can never capture such an extension.
pub proof fn lemma_image_extension_classifies_image(p: Seq<char>)
    requires
        extension_of(p) matches Some(e) && spec_is_image_extension(e),
    ensures
        spec_classify(p) is Image,
{
    let e = extension_of(p).unwrap();
    reveal_strlit("pdf");
    reveal_strlit("png");
    reveal_strlit("jpg");
    reveal_strlit("jpeg");
    reveal_strlit("tiff");
    reveal_strlit("tif");
    reveal_strlit("gif");
    reveal_strlit("bmp");
    reveal_strlit("webp");
    reveal_strlit("heic");
    reveal_strlit("heif");
    if seq_eq_ignore_case(e, "pdf"@) {
        if seq_eq_ignore_case(e, "png"@) {
            assert(chars_eq_ignore_case(e[1], "png"@[1]));
            assert(chars_eq_ignore_case(e[1], "pdf"@[1]));
            assert(false);
        } else if seq_eq_ignore_case(e, "jpg"@) {
            assert(chars_eq_ignore_case(e[0], "jpg"@[0]));
            assert(chars_eq_ignore_case(e[0], "pdf"@[0]));
            assert(false);
        } else if seq_eq_ignore_case(e, "tif"@) {
            assert(chars_eq_ignore_case(e[0], "tif"@[0]));
            assert(chars_eq_ignore_case(e[0], "pdf"@[0]));
            assert(false);
        } else if seq_eq_ignore_case(e, "gif"@) {
            assert(chars_eq_ignore_case(e[0], "gif"@[0]));
            assert(chars_eq_ignore_case(e[0], "pdf"@[0]));
            assert(false);
        } else if seq_eq_ignore_case(e, "bmp"@) {
            assert(chars_eq_ignore_case(e[0], "bmp"@[0]));
            assert(chars_eq_ignore_case(e[0], "pdf"@[0]));
            assert(false);
        } else {
            assert(e.len() == 4 && e.len() == 3);
            assert(false);
        }
    }
}

/// Classify a path by its extension: `pdf` is a PDF document, a recognized
/// image extension is an image, anything else is plain text. Pure function
/// of the path string; the comparison ignores ASCII letter case.
pub fn classify(path: &str) -> (c: FileClassification)
    ensures
        c == spec_classify(path@),
{
    let n = path.unicode_len();
    let name: &str = match last_char_index(path, '/') {
        Some(i) => path.substring_char(i + 1, n),
        None => {
            proof {
                assert(path@.subrange(0, path@.len() as int) =~= path@);
            }
            path
        },
    };
    proof {
        assert(name@ == file_name_of(path@));
    }
    let nn = name.unicode_len();
    match last_char_index(name, '.') {
        None => FileClassification::Text,
        Some(d) => {
            if d == 0 {
                FileClassification::Text
            } else {
                let ext = name.substring_char(d + 1, nn);
                proof {
                    assert(extension_of(path@) == Some(ext@));
                }
                if str_eq_ignore_case(ext, "pdf") {
                    FileClassification::Pdf
                } else if is_image_extension(ext) {
                    FileClassification::Image
                } else {
                    FileClassification::Text
                }
            }
        },
    }
}

} // verus!
