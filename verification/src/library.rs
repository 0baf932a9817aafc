//! The images of a folder: which files are listed, in which order, and how
//! the window is titled.

use vstd::prelude::*;
use vstd::string::StringExecFns;
use crate::text::{ascii_lower, is_plain_text, lowercase, str_eq, to_lowercase};
use vstd::utf8::is_ascii_chars;
use crate::imaging::{decode_rgba, decoded_rgba, thumbnail_of, RgbaImage};

verus! {

/// The file extensions (lowercase) of the images the viewer lists.
pub open spec fn supported_extensions() -> Seq<Seq<char>> {
    seq!["pnm"@, "pgm"@, "ppm"@, "pam"@, "png"@, "jpg"@, "jpeg"@, "gif"@, "webp"@, "tif"@, "tiff"@, "tga"@, "dds"@, "bmp"@, "ico"@, "hdr"@, "exr"@, "ff"@, "farbfeld"@, "avif"@, "qoi"@, "heif"@, "heic"@]
}

/// The extensions (lowercase) of the images the viewer lists.
pub fn supported_extension_list() -> (r: Vec<&'static str>)
    ensures
        r@.map_values(|s: &str| s@) == supported_extensions(),
{
    let r = vec!["pnm", "pgm", "ppm", "pam", "png", "jpg", "jpeg", "gif", "webp", "tif", "tiff", "tga", "dds", "bmp", "ico", "hdr", "exr", "ff", "farbfeld", "avif", "qoi", "heif", "heic"];
    assert(r@.map_values(|s: &str| s@) =~= supported_extensions());
    r
}

/// Whether a file with this extension is listed: its lowercase form is one
/// of `supported_extensions`.
pub fn is_supported_extension(ext: &str) -> (r: bool)
    ensures
        r == supported_extensions().contains(lowercase(ext@)),
{
    let lower = to_lowercase(ext);
    let list = supported_extension_list();
    let mut i: usize = 0;
    while i < list.len()
        invariant
            i <= list.len(),
            lower@ == lowercase(ext@),
            list@.map_values(|s: &str| s@) == supported_extensions(),
            forall|j: int| 0 <= j < i ==> supported_extensions()[j] != lower@,
        decreases list.len() - i,
    {
        assert(supported_extensions()[i as int] == list@[i as int]@);
        if str_eq(list[i], lower.as_str()) {
            assert(supported_extensions()[i as int] == lower@);
            assert(list@.map_values(|s: &str| s@).len() == list@.len());
            assert(supported_extensions().contains(lower@));
            return true;
        }
        i = i + 1;
    }
    assert(list@.map_values(|s: &str| s@).len() == list@.len());
    assert(!supported_extensions().contains(lower@));
    false
}

/// Whether the file is a HEIF image, decoded by libheif when it is built in:
/// its extension is "heif" or "heic" after lowercasing.
pub fn is_heif_extension(ext: &str) -> (r: bool)
    ensures
        r == (lowercase(ext@) == "heif"@ || lowercase(ext@) == "heic"@),
{
    let lower = to_lowercase(ext);
    str_eq(lower.as_str(), "heif") || str_eq(lower.as_str(), "heic")
}

/// What the listed images are sorted by.
#[derive(Clone, Copy, Debug, PartialEq, Eq, Structural)]
pub enum SortKey {
    Name,
    ModifiedTime,
    CreatedTime,
    Size,
}

/// How the listed images are ordered.
#[derive(Clone, Copy, Debug, PartialEq, Eq, Structural)]
pub struct SortPlan {
    pub key: SortKey,
    pub descending: bool,
}

/// The order of the listed images: by name, ascending, when the system's
/// order is used; otherwise by the chosen criterion ("Modified time",
/// "Created time", "Size", anything else meaning the name), descending when
/// the order setting is "Descending".
pub fn sort_plan(use_os_sorting: bool, criteria: &str, order: &str) -> (r: SortPlan)
    ensures
        r == if use_os_sorting {
            SortPlan { key: SortKey::Name, descending: false }
        } else {
            SortPlan {
                key: if criteria@ == "Modified time"@ {
                    SortKey::ModifiedTime
                } else if criteria@ == "Created time"@ {
                    SortKey::CreatedTime
                } else if criteria@ == "Size"@ {
                    SortKey::Size
                } else {
                    SortKey::Name
                },
                descending: order@ == "Descending"@,
            }
        },
{
    if use_os_sorting {
        return SortPlan { key: SortKey::Name, descending: false };
    }
    let key = if str_eq(criteria, "Modified time") {
        SortKey::ModifiedTime
    } else if str_eq(criteria, "Created time") {
        SortKey::CreatedTime
    } else if str_eq(criteria, "Size") {
        SortKey::Size
    } else {
        SortKey::Name
    };
    SortPlan { key, descending: str_eq(order, "Descending") }
}

/// The window title for a shown file: "name - Voutil", or "Voutil" when the
/// path has no file name.
pub fn window_title(file_name: Option<&str>) -> (r: String)
    ensures
        r@ == match file_name {
            Some(n) => n@ + " - Voutil"@,
            None => "Voutil"@,
        },
{
    match file_name {
        Some(n) => {
            let mut t = String::from_str(n);
            t.append(" - Voutil");
            t
        },
        None => String::from_str("Voutil"),
    }
}

/// The texts of a list of strings.
pub open spec fn texts(v: Seq<String>) -> Seq<Seq<char>> {
    v.map_values(|t: String| t@)
}

/// Position of the last occurrence of `p` in `s`, or -1 when `p` does not
/// occur.
pub open spec fn last_index(s: Seq<Seq<char>>, p: Seq<char>) -> int
    decreases s.len(),
{
    if s.len() == 0 {
        -1
    } else if s.last() == p {
        s.len() - 1
    } else {
        last_index(s.drop_last(), p)
    }
}

/// The thumbnails to show, as positions in `arrived` (the order in which
/// they were made), in the order of the listed paths: for each listed path,
/// the last thumbnail made for it, unless that path was listed before or has
/// no thumbnail.
pub open spec fn arranged(listed: Seq<Seq<char>>, arrived: Seq<Seq<char>>) -> Seq<int>
    decreases listed.len(),
{
    if listed.len() == 0 {
        seq![]
    } else {
        let before = arranged(listed.drop_last(), arrived);
        let p = listed.last();
        if last_index(arrived, p) >= 0 && !listed.drop_last().contains(p) {
            before.push(last_index(arrived, p))
        } else {
            before
        }
    }
}

proof fn lemma_last_index(s: Seq<Seq<char>>, p: Seq<char>, i: int)
    requires
        -1 <= i < s.len(),
        i >= 0 ==> s[i] == p,
        forall|t: int| i < t < s.len() ==> s[t] != p,
    ensures
        last_index(s, p) == i,
    decreases s.len(),
{
    if s.len() > 0 && i != s.len() - 1 {
        lemma_last_index(s.drop_last(), p, i);
    }
}

/// Where the last thumbnail made for `p` is in `arrived`.
fn last_position(arrived: &Vec<String>, p: &str) -> (r: Option<usize>)
    ensures
        match r {
            Some(i) => i < arrived@.len() && i == last_index(texts(arrived@), p@),
            None => last_index(texts(arrived@), p@) == -1,
        },
{
    let ghost a = texts(arrived@);
    let mut j: usize = arrived.len();
    while j > 0
        invariant
            j <= arrived@.len(),
            a == texts(arrived@),
            forall|t: int| j <= t < a.len() ==> a[t] != p@,
        decreases j,
    {
        assert(a[j - 1] == arrived@[j - 1]@);
        if str_eq(arrived[j - 1].as_str(), p) {
            proof {
                lemma_last_index(a, p@, j - 1);
            }
            return Some(j - 1);
        }
        j = j - 1;
    }
    proof {
        lemma_last_index(a, p@, -1);
    }
    None
}

/// Whether `p` is one of the first `k` listed paths.
fn listed_before(listed: &Vec<String>, k: usize, p: &str) -> (r: bool)
    requires
        k <= listed@.len(),
    ensures
        r == texts(listed@).take(k as int).contains(p@),
{
    let ghost l = texts(listed@);
    let mut j: usize = 0;
    while j < k
        invariant
            j <= k <= listed@.len(),
            l == texts(listed@),
            forall|t: int| 0 <= t < j ==> l[t] != p@,
        decreases k - j,
    {
        assert(l[j as int] == listed@[j as int]@);
        if str_eq(listed[j].as_str(), p) {
            assert(l.take(k as int)[j as int] == p@);
            return true;
        }
        j = j + 1;
    }
    assert forall|t: int| 0 <= t < l.take(k as int).len() implies l.take(k as int)[t] != p@ by {
        assert(l.take(k as int)[t] == l[t]);
    }
    false
}

/// The thumbnails made so far (`arrived`, by path, in the order they were
/// made) put in the order of the listed images, each listed image getting
/// the last thumbnail made for it; returned as positions in `arrived`.
pub fn arrange_thumbnails(listed: &Vec<String>, arrived: &Vec<String>) -> (r: Vec<usize>)
    ensures
        r@.map_values(|i: usize| i as int) == arranged(texts(listed@), texts(arrived@)),
{
    let ghost l = texts(listed@);
    let ghost a = texts(arrived@);
    let mut out: Vec<usize> = Vec::new();
    let mut k: usize = 0;
    while k < listed.len()
        invariant
            k <= listed@.len(),
            l == texts(listed@),
            a == texts(arrived@),
            out@.map_values(|i: usize| i as int) == arranged(l.take(k as int), a),
        decreases listed@.len() - k,
    {
        let p = listed[k].as_str();
        let ghost before = out@;
        proof {
            assert(l.take(k as int + 1).drop_last() =~= l.take(k as int));
            assert(l.take(k as int + 1).last() == p@);
        }
        match last_position(arrived, p) {
            Some(i) => {
                if !listed_before(listed, k, p) {
                    out.push(i);
                    assert(out@.map_values(|i: usize| i as int) =~= before.map_values(|i: usize| i as int).push(i as int));
                }
            },
            None => {},
        }
        k = k + 1;
    }
    assert(l.take(k as int) =~= l);
    out
}

/// The largest side, in pixels, of the thumbnails shown for a folder.
pub const THUMBNAIL_SIZE: u32 = 120;

/// The thumbnail shown for an image file, from the file's bytes: the decoded
/// image fitted within `THUMBNAIL_SIZE` by `THUMBNAIL_SIZE`, or `None` when
/// the bytes do not decode.
pub fn make_thumbnail(bytes: &[u8]) -> (r: Option<RgbaImage>)
    ensures
        match decoded_rgba(bytes@) {
            Some(d) => r matches Some(t) && t@ == thumbnail_of(d.2, d.0, d.1, THUMBNAIL_SIZE, THUMBNAIL_SIZE),
            None => r is None,
        },
{
    match decode_rgba(bytes) {
        Some(img) => Some(img.thumbnail(THUMBNAIL_SIZE, THUMBNAIL_SIZE)),
        None => None,
    }
}

/// The listed extensions are exactly pnm, pgm, ppm, pam, png, jpg, jpeg, gif,
/// webp, tif, tiff, tga, dds, bmp, ico, hdr, exr, ff, farbfeld, avif, qoi,
/// heif and heic; a file's extension is compared in lowercase, so an
/// extension made of ASCII letters is listed in any letter case exactly when
/// its lowercase form is one of them.
pub proof fn law_listed_extensions(e: Seq<char>, ext: Seq<char>)
    ensures
        supported_extensions().contains(e) <==> (
            e == "pnm"@ || e == "pgm"@ || e == "ppm"@ || e == "pam"@ || e == "png"@ ||
                e == "jpg"@ || e == "jpeg"@ || e == "gif"@ || e == "webp"@ || e == "tif"@ ||
                e == "tiff"@ || e == "tga"@ || e == "dds"@ || e == "bmp"@ || e == "ico"@ ||
                e == "hdr"@ || e == "exr"@ || e == "ff"@ || e == "farbfeld"@ || e == "avif"@ ||
                e == "qoi"@ || e == "heif"@ || e == "heic"@
        ),
        is_ascii_chars(ext) ==> lowercase(ext) == ascii_lower(ext),
{
    reveal_strlit("pnm");
    reveal_strlit("pgm");
    reveal_strlit("ppm");
    reveal_strlit("pam");
    reveal_strlit("png");
    reveal_strlit("jpg");
    reveal_strlit("jpeg");
    reveal_strlit("gif");
    reveal_strlit("webp");
    reveal_strlit("tif");
    reveal_strlit("tiff");
    reveal_strlit("tga");
    reveal_strlit("dds");
    reveal_strlit("bmp");
    reveal_strlit("ico");
    reveal_strlit("hdr");
    reveal_strlit("exr");
    reveal_strlit("ff");
    reveal_strlit("farbfeld");
    reveal_strlit("avif");
    reveal_strlit("qoi");
    reveal_strlit("heif");
    reveal_strlit("heic");
    assert(supported_extensions()[0] == "pnm"@);
    assert(supported_extensions()[1] == "pgm"@);
    assert(supported_extensions()[2] == "ppm"@);
    assert(supported_extensions()[3] == "pam"@);
    assert(supported_extensions()[4] == "png"@);
    assert(supported_extensions()[5] == "jpg"@);
    assert(supported_extensions()[6] == "jpeg"@);
    assert(supported_extensions()[7] == "gif"@);
    assert(supported_extensions()[8] == "webp"@);
    assert(supported_extensions()[9] == "tif"@);
    assert(supported_extensions()[10] == "tiff"@);
    assert(supported_extensions()[11] == "tga"@);
    assert(supported_extensions()[12] == "dds"@);
    assert(supported_extensions()[13] == "bmp"@);
    assert(supported_extensions()[14] == "ico"@);
    assert(supported_extensions()[15] == "hdr"@);
    assert(supported_extensions()[16] == "exr"@);
    assert(supported_extensions()[17] == "ff"@);
    assert(supported_extensions()[18] == "farbfeld"@);
    assert(supported_extensions()[19] == "avif"@);
    assert(supported_extensions()[20] == "qoi"@);
    assert(supported_extensions()[21] == "heif"@);
    assert(supported_extensions()[22] == "heic"@);
    assert(is_ascii_chars(ext) ==> is_plain_text(ext));
}

} // verus!
