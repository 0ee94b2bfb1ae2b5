//! File paths: extensions, parent directories, texture file names and the
//! image format that a texture path asks for.

use vstd::prelude::*;
use vstd::string::StringExecFns;

use image::ImageFormat;

use crate::text::{same_text, string_push};

verus! {

broadcast use vstd::string::group_string_axioms;

/// The extension of a path, the answer of `std::path::Path::extension`: the
/// part of the file name after its last `.`, when there is one.
pub uninterp spec fn path_extension(p: Seq<char>) -> Option<Seq<char>>;

/// The parent of a path, the answer of `std::path::Path::parent`.
pub uninterp spec fn path_parent(p: Seq<char>) -> Option<Seq<char>>;

/// The image formats that a file extension can name.
#[derive(Debug, Clone, Copy, PartialEq, Eq, Structural)]
pub enum ImageKind {
    Png,
    Jpeg,
    Gif,
    WebP,
    Pnm,
    Tiff,
    Tga,
    Dds,
    Bmp,
    Ico,
    Hdr,
    Farbfeld,
    Avif,
}

/// `s` with its ASCII capitals in lower case.
pub open spec fn ascii_lowercase(s: Seq<char>) -> Seq<char> {
    s.map_values(|c: char| if 'A' <= c && c <= 'Z' { ((c as u32) + 32) as char } else { c })
}

/// The format that a file extension names, in any case of its ASCII letters.
pub open spec fn image_format_of_extension(e: Seq<char>) -> Option<ImageKind> {
    let l = ascii_lowercase(e);
    if l == "avif"@ {
        Some(ImageKind::Avif)
    } else if l == "jpg"@ || l == "jpeg"@ {
        Some(ImageKind::Jpeg)
    } else if l == "png"@ {
        Some(ImageKind::Png)
    } else if l == "gif"@ {
        Some(ImageKind::Gif)
    } else if l == "webp"@ {
        Some(ImageKind::WebP)
    } else if l == "tif"@ || l == "tiff"@ {
        Some(ImageKind::Tiff)
    } else if l == "tga"@ {
        Some(ImageKind::Tga)
    } else if l == "dds"@ {
        Some(ImageKind::Dds)
    } else if l == "bmp"@ {
        Some(ImageKind::Bmp)
    } else if l == "ico"@ {
        Some(ImageKind::Ico)
    } else if l == "hdr"@ {
        Some(ImageKind::Hdr)
    } else if l == "pbm"@ || l == "pam"@ || l == "ppm"@ || l == "pgm"@ {
        Some(ImageKind::Pnm)
    } else if l == "ff"@ || l == "farbfeld"@ {
        Some(ImageKind::Farbfeld)
    } else {
        None
    }
}

/// The format that `image::ImageFormat::from_path` finds for a path: the
/// one its extension names; `None` where it has none or one that names none.
pub open spec fn image_format_of_path(p: Seq<char>) -> Option<ImageKind> {
    match path_extension(p) {
        Some(e) => image_format_of_extension(e),
        None => None,
    }
}

/// Calls `Path::extension` and takes the extension as text. Its answer is
/// named `path_extension`; the rules of `Path` are not written out.
#[verifier::external_body]
pub(crate) fn extension_of(path: &str) -> (res: Option<String>)
    ensures
        match res {
            Some(e) => path_extension(path@) == Some(e@),
            None => path_extension(path@) is None,
        },
{
    let ext = std::path::Path::new(path).extension()?;
    Some(ext.to_str()?.to_string())
}

/// Calls `Path::parent` and takes the parent as text. Its answer is named
/// `path_parent`; the rules of `Path` are not written out.
#[verifier::external_body]
pub(crate) fn parent_of(path: &str) -> (res: Option<String>)
    ensures
        match res {
            Some(d) => path_parent(path@) == Some(d@),
            None => path_parent(path@) is None,
        },
{
    let parent = std::path::Path::new(path).parent()?;
    Some(parent.to_str()?.to_string())
}

/// Reads `std::path::MAIN_SEPARATOR`, which its documentation gives as `/`
/// on Unix and `\` on Windows; which one is the platform's is not stated.
#[verifier::external_body]
pub(crate) fn main_separator() -> (c: char)
    ensures
        c == '/' || c == '\\',
{
    std::path::MAIN_SEPARATOR
}

/// Calls `image::ImageFormat::from_path`, telling its variants apart. The
/// crate takes the path's extension, puts its ASCII letters in lower case
/// and looks it up in its table of extensions, `image_format_of_extension`.
#[verifier::external_body]
pub(crate) fn image_format_from_path(path: &str) -> (res: Option<ImageKind>)
    ensures
        res == image_format_of_path(path@),
{
    let format = ImageFormat::from_path(path).ok()?;
    Some(match format {
        ImageFormat::Png => ImageKind::Png, ImageFormat::Jpeg => ImageKind::Jpeg,
        ImageFormat::Gif => ImageKind::Gif, ImageFormat::WebP => ImageKind::WebP,
        ImageFormat::Pnm => ImageKind::Pnm, ImageFormat::Tiff => ImageKind::Tiff,
        ImageFormat::Tga => ImageKind::Tga, ImageFormat::Dds => ImageKind::Dds,
        ImageFormat::Bmp => ImageKind::Bmp, ImageFormat::Ico => ImageKind::Ico,
        ImageFormat::Hdr => ImageKind::Hdr, ImageFormat::Farbfeld => ImageKind::Farbfeld,
        ImageFormat::Avif => ImageKind::Avif,
        _ => return None,
    })
}

/// `s` with every backslash replaced by `sep`.
pub open spec fn replace_backslashes(s: Seq<char>, sep: char) -> Seq<char> {
    s.map_values(|c: char| if c == '\\' { sep } else { c })
}

/// The path of a texture: the model's directory, a `/`, and the texture's
/// name with its backslashes turned into `separator`.
pub fn texture_path(model_dir: &str, texture_name: &str, separator: char) -> (res: String)
    ensures
        res@ == model_dir@ + "/"@ + replace_backslashes(texture_name@, separator),
        res@.len() == model_dir@.len() + 1 + texture_name@.len(),
        res@.subrange(0, model_dir@.len() as int) == model_dir@,
        res@[model_dir@.len() as int] == '/',
        forall|k: int|
            0 <= k < texture_name@.len() ==> #[trigger] res@[model_dir@.len() + 1 + k] == if texture_name@[k]
                == '\\' {
                separator
            } else {
                texture_name@[k]
            },
{
    let mut out = model_dir.to_string();
    out.append("/");
    let ghost head = out@;
    let n = texture_name.unicode_len();
    let mut i: usize = 0;
    while i < n
        invariant
            n == texture_name@.len(),
            i <= n,
            out@ == head + replace_backslashes(texture_name@, separator).take(i as int),
        decreases n - i,
    {
        let c = texture_name.get_char(i);
        let d = if c == '\\' {
            separator
        } else {
            c
        };
        string_push(&mut out, d);
        proof {
            assert(replace_backslashes(texture_name@, separator).take(i + 1) =~= replace_backslashes(
                texture_name@,
                separator,
            ).take(i as int).push(d));
        }
        i = i + 1;
    }
    proof {
        assert(replace_backslashes(texture_name@, separator).take(n as int) =~= replace_backslashes(
            texture_name@,
            separator,
        ));
    }
    proof {
        lemma_backslashes_replaced(texture_name@, separator);
        reveal_strlit("/");
        let r = out@;
        let d = model_dir@.len() as int;
        assert(r.subrange(0, d) =~= model_dir@);
        assert forall|k: int| 0 <= k < texture_name@.len() implies #[trigger] r[d + 1 + k] == if texture_name@[k] == '\\' {
            separator
        } else {
            texture_name@[k]
        } by {
            assert(r[d + 1 + k] == replace_backslashes(texture_name@, separator)[k]);
        }
    }
    out
}

/// Every backslash of a name is replaced by the separator, and every other
/// character is kept, in place.
pub proof fn lemma_backslashes_replaced(s: Seq<char>, sep: char)
    ensures
        replace_backslashes(s, sep).len() == s.len(),
        forall|k: int|
            0 <= k < s.len() ==> #[trigger] replace_backslashes(s, sep)[k] == if s[k] == '\\' {
                sep
            } else {
                s[k]
            },
        sep != '\\' ==> !replace_backslashes(s, sep).contains('\\'),
{
    let r = replace_backslashes(s, sep);
    if sep != '\\' && r.contains('\\') {
        let j = choose|j: int| 0 <= j < r.len() && r[j] == '\\';
        assert(r[j] == if s[j] == '\\' { sep } else { s[j] });
    }
}

/// The path of a texture named in a model file: `None` where the model's
/// path has no parent; otherwise the texture path under the parent, with
/// backslashes turned into the platform's separator.
pub fn texture_file_path(model_file: &str, texture_name: &str) -> (res: Option<String>)
    ensures
        res is None <==> path_parent(model_file@) is None,
        res matches Some(p) ==> exists|sep: char|
            (sep == '/' || sep == '\\') && p@ == path_parent(model_file@)->0 + "/"@
                + replace_backslashes(texture_name@, sep),
{
    let dir = match parent_of(model_file) {
        Some(d) => d,
        None => return None,
    };
    let sep = main_separator();
    let p = texture_path(dir.as_str(), texture_name, sep);
    assert(p@ == path_parent(model_file@)->0 + "/"@ + replace_backslashes(texture_name@, sep));
    Some(p)
}

/// The format to read a texture with: `.spa` and `.sph` sphere maps are
/// bitmaps, other files go by their extension.
pub open spec fn texture_format_of(p: Seq<char>) -> Option<ImageKind> {
    match path_extension(p) {
        None => None,
        Some(e) => if e == "spa"@ || e == "sph"@ {
            Some(ImageKind::Bmp)
        } else {
            image_format_of_path(p)
        },
    }
}

/// Only the extensions `spa` and `sph` are read as bitmaps: a path with any
/// other extension is read in the format its extension names, the format
/// `image::ImageFormat::from_path` finds, and a path with no extension has
/// no format.
pub proof fn lemma_only_sphere_maps_are_bitmaps(p: Seq<char>)
    ensures
        path_extension(p) is None ==> texture_format_of(p) is None,
        path_extension(p) matches Some(e) && (e == "spa"@ || e == "sph"@) ==> texture_format_of(p)
            == Some(ImageKind::Bmp),
        path_extension(p) matches Some(e) ==> (e != "spa"@ && e != "sph"@ ==> texture_format_of(p)
            == image_format_of_extension(e)),
{
}

/// The format to read a texture file with; `None` where the path has no
/// extension or one that names no format.
pub fn texture_format(path: &str) -> (res: Option<ImageKind>)
    ensures
        res == texture_format_of(path@),
        path_extension(path@) is None ==> res is None,
        path_extension(path@) matches Some(e) && (e == "spa"@ || e == "sph"@) ==> res == Some(
            ImageKind::Bmp,
        ),
        path_extension(path@) matches Some(e) && e != "spa"@ && e != "sph"@ ==> res
            == image_format_of_path(path@),
{
    let ext = match extension_of(path) {
        Some(e) => e,
        None => return None,
    };
    if same_text(ext.as_str(), "spa") || same_text(ext.as_str(), "sph") {
        Some(ImageKind::Bmp)
    } else {
        image_format_from_path(path)
    }
}

} // verus!
