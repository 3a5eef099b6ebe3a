//! Media-type detection from file extensions, and base64 encoding of image
//! bytes for embedding in a remote request. Reading the bytes from disk is
//! the host application's work.

use vstd::prelude::*;
use vstd::string::StringExecFns;

use crate::text::{chars_of, push_char};

verus! {

broadcast use vstd::string::group_string_axioms;

/// An unrecognized image file extension.
#[derive(Debug, Clone, PartialEq)]
pub enum ImageFormatError {
    /// The (lowercased) extension that was not recognized.
    UnsupportedFormat { extension: String },
}

impl ImageFormatError {
    /// A human-readable description of the error.
    pub fn message(&self) -> (r: String)
        ensures
            self matches ImageFormatError::UnsupportedFormat { extension } ==> r@
                == "Unsupported image format: "@ + extension@,
    {
        match self {
            ImageFormatError::UnsupportedFormat { extension } => {
                let mut m = String::from_str("Unsupported image format: ");
                m.append(extension.as_str());
                m
            },
        }
    }
}

/// Index of the last occurrence of `c` in `s`, or -1 if there is none.
pub open spec fn last_index_of(s: Seq<char>, c: char) -> int
    decreases s.len(),
{
    if s.len() == 0 {
        -1
    } else if s.last() == c {
        s.len() - 1
    } else {
        last_index_of(s.drop_last(), c)
    }
}

/// `last_index_of` is pinned down by a witness: `k` holds `c` (or is -1) and
/// nothing after `k` does.
proof fn lemma_last_index_of_is(s: Seq<char>, c: char, k: int)
    requires
        -1 <= k < s.len(),
        k >= 0 ==> s[k] == c,
        forall|m: int| k < m < s.len() ==> s[m] != c,
    ensures
        last_index_of(s, c) == k,
    decreases s.len(),
{
    if s.len() != 0 {
        if s.last() == c {
            assert(k == s.len() - 1);
        } else {
            assert(k < s.len() - 1);
            assert(forall|m: int| k < m < s.drop_last().len() ==> s.drop_last()[m] != c);
            lemma_last_index_of_is(s.drop_last(), c, k);
        }
    }
}

/// ASCII lowercase of one character; everything else is unchanged.
pub open spec fn lower_char(c: char) -> char {
    if 65 <= c as u32 <= 90 {
        ((c as u32 + 32) as u8) as char
    } else {
        c
    }
}

/// ASCII lowercase of a character sequence.
pub open spec fn lower(s: Seq<char>) -> Seq<char> {
    s.map_values(|c: char| lower_char(c))
}

/// The extension of the file that `path` names: what follows the last `.` of
/// the final path component, lowercased; empty when the component has no `.`
/// past its first character.
pub open spec fn extension_of(path: Seq<char>) -> Seq<char> {
    let name = path.skip(last_index_of(path, '/') + 1);
    let q = last_index_of(name, '.');
    if q > 0 {
        lower(name.skip(q + 1))
    } else {
        Seq::empty()
    }
}

/// The extensions this library recognizes as images.
pub open spec fn is_supported_extension(e: Seq<char>) -> bool {
    e == "jpg"@ || e == "jpeg"@ || e == "png"@ || e == "webp"@ || e == "gif"@
}

/// ASCII lowercase of one character, in executable code.
fn lower_char_exec(c: char) -> (r: char)
    ensures
        r == lower_char(c),
{
    let u = c as u32;
    if 65 <= u && u <= 90 {
        ((u + 32) as u8) as char
    } else {
        c
    }
}

/// Index of the last occurrence of `c` in `v` within `0..to`, as an absolute
/// index, or `None`.
fn rfind_before(v: &Vec<char>, c: char, from: usize, to: usize) -> (r: Option<usize>)
    requires
        from <= to <= v@.len(),
    ensures
        r matches Some(k) ==> ({
            &&& from <= k < to
            &&& v@[k as int] == c
            &&& forall|m: int| k < m < to ==> v@[m] != c
        }),
        r is None ==> forall|m: int| from <= m < to ==> v@[m] != c,
{
    let mut j: usize = to;
    while j > from
        invariant
            from <= j <= to <= v@.len(),
            forall|m: int| j <= m < to ==> v@[m] != c,
        decreases j,
    {
        if v[j - 1] == c {
            return Some(j - 1);
        }
        j -= 1;
    }
    None
}

/// The lowercased extension of the file that `path` names, as a fresh string.
fn extension_string(path: &str) -> (r: String)
    ensures
        r@ == extension_of(path@),
{
    let v = chars_of(path);
    let n = v.len();
    let name_start: usize = match rfind_before(&v, '/', 0, n) {
        Some(k) => {
            proof {
                lemma_last_index_of_is(v@, '/', k as int);
            }
            k + 1
        },
        None => {
            proof {
                lemma_last_index_of_is(v@, '/', -1);
            }
            0
        },
    };
    let ghost name = path@.skip(name_start as int);
    let dot: Option<usize> = rfind_before(&v, '.', name_start, n);
    let ext_start: usize = match dot {
        Some(q) if q > name_start => {
            proof {
                assert(forall|m: int|
                    (q - name_start) < m < name.len() ==> name[m] != '.') by {
                    assert(forall|m: int|
                        (q - name_start) < m < name.len() ==> name[m] == v@[name_start + m]);
                }
                lemma_last_index_of_is(name, '.', q - name_start);
            }
            q + 1
        },
        _ => {
            proof {
                match dot {
                    Some(q) => {
                        assert(forall|m: int|
                            0 < m < name.len() ==> name[m] == v@[name_start + m]);
                        assert(forall|m: int| 0 < m < name.len() ==> name[m] != '.');
                        if name.len() > 0 && name[0] == '.' {
                            lemma_last_index_of_is(name, '.', 0);
                        } else {
                            lemma_last_index_of_is(name, '.', -1);
                        }
                    },
                    None => {
                        assert(forall|m: int|
                            0 <= m < name.len() ==> name[m] == v@[name_start + m]);
                        lemma_last_index_of_is(name, '.', -1);
                    },
                }
                assert(extension_of(path@) == Seq::<char>::empty());
            }
            return String::new();
        },
    };
    let ghost ext = name.skip(last_index_of(name, '.') + 1);
    assert(ext =~= v@.subrange(ext_start as int, n as int));
    let mut s = String::new();
    let mut i: usize = ext_start;
    while i < n
        invariant
            ext_start <= i <= n,
            n == v@.len(),
            ext == v@.subrange(ext_start as int, n as int),
            s@ == lower(ext.take(i - ext_start)),
        decreases n - i,
    {
        push_char(&mut s, lower_char_exec(v[i]));
        assert(s@ =~= lower(ext.take(i + 1 - ext_start)));
        i += 1;
    }
    assert(ext.take(n - ext_start) =~= ext);
    s
}

/// Whether the lowercased extension equals the (lowercase ASCII) literal.
fn ext_is(e: &String, lit: &str) -> (r: bool)
    ensures
        r == (e@ == lit@),
{
    let a = chars_of(e.as_str());
    let b = chars_of(lit);
    if a.len() != b.len() {
        return false;
    }
    let n = a.len();
    let mut i: usize = 0;
    while i < n
        invariant
            i <= n,
            n == a@.len() == b@.len(),
            a@ == e@,
            b@ == lit@,
            forall|j: int| 0 <= j < i ==> a@[j] == b@[j],
        decreases n - i,
    {
        if a[i] != b[i] {
            return false;
        }
        i += 1;
    }
    assert(e@ =~= lit@);
    true
}

/// Determine the MIME type of an image file from its extension,
/// case-insensitively. Only the path's text is consulted, never the file.
pub fn get_mime_type(path: &str) -> (r: Result<String, ImageFormatError>)
    ensures
        r is Ok <==> is_supported_extension(extension_of(path@)),
        extension_of(path@) == "jpg"@ || extension_of(path@) == "jpeg"@ ==> (r matches Ok(m) && m@
            == "image/jpeg"@),
        extension_of(path@) == "png"@ ==> (r matches Ok(m) && m@ == "image/png"@),
        extension_of(path@) == "webp"@ ==> (r matches Ok(m) && m@ == "image/webp"@),
        extension_of(path@) == "gif"@ ==> (r matches Ok(m) && m@ == "image/gif"@),
        r matches Err(e) ==> (e matches ImageFormatError::UnsupportedFormat { extension }
            && extension@ == extension_of(path@)),
{
    proof {
        reveal_strlit("jpg");
        reveal_strlit("jpeg");
        reveal_strlit("png");
        reveal_strlit("webp");
        reveal_strlit("gif");
        // Pin one character and the length of each literal so the prover can
        // tell the five extensions apart.
        assert("jpg"@[0] == 'j' && "jpg"@.len() == 3);
        assert("jpeg"@[0] == 'j' && "jpeg"@.len() == 4);
        assert("png"@[0] == 'p' && "png"@.len() == 3);
        assert("webp"@[0] == 'w' && "webp"@.len() == 4);
        assert("gif"@[0] == 'g' && "gif"@.len() == 3);
    }
    let ext = extension_string(path);
    if ext_is(&ext, "jpg") || ext_is(&ext, "jpeg") {
        Ok(String::from_str("image/jpeg"))
    } else if ext_is(&ext, "png") {
        Ok(String::from_str("image/png"))
    } else if ext_is(&ext, "webp") {
        Ok(String::from_str("image/webp"))
    } else if ext_is(&ext, "gif") {
        Ok(String::from_str("image/gif"))
    } else {
        Err(ImageFormatError::UnsupportedFormat { extension: ext })
    }
}

/// Validate that a file path names a supported image format.
pub fn is_valid_image(path: &str) -> (r: bool)
    ensures
        r == is_supported_extension(extension_of(path@)),
{
    get_mime_type(path).is_ok()
}

/// The standard padded base64 encoding of a byte sequence, as the `base64`
/// crate computes it; a function of the bytes alone.
pub uninterp spec fn base64_of(bytes: Seq<u8>) -> Seq<char>;

/// Relies on `base64::engine::general_purpose::STANDARD` (`Engine::encode`):
/// standard-alphabet padded base64, a pure function of the input bytes, with
/// four output characters for every three input bytes, rounded up.
#[verifier::external_body]
fn b64_encode(bytes: &Vec<u8>) -> (r: String)
    requires
        bytes@.len() <= usize::MAX / 4,
    ensures
        r@ == base64_of(bytes@),
        r@.len() == 4 * ((bytes@.len() + 2) / 3),
{
    base64::engine::Engine::encode(&base64::engine::general_purpose::STANDARD, bytes.as_slice())
}

/// Encode raw image bytes as standard padded base64, for embedding in a
/// remote request. The length bound keeps the encoded size within `usize`.
pub fn encode_image_bytes(bytes: &Vec<u8>) -> (r: String)
    requires
        bytes@.len() <= usize::MAX / 4,
    ensures
        r@ == base64_of(bytes@),
        r@.len() == 4 * ((bytes@.len() + 2) / 3),
{
    b64_encode(bytes)
}

} // verus!
