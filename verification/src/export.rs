//! Export dispatch: from the save dialog's answer to an output format.
//!
//! The host shows the save dialog on an export worker and passes the chosen
//! path here as raw bytes; this module decides, exactly as specified, which
//! file-backed renderer serves the request or which error the worker
//! reports. Paths are treated as byte strings with `/` as the separator;
//! only the extension must decode as UTF-8.

use vstd::prelude::*;
use vstd::utf8::decode_utf8;
use vstd::utf8::valid_utf8;

verus! {

/// Why an export produced no file.
#[derive(Clone, Copy, Debug, PartialEq, Eq, Structural)]
pub enum ExportError {
    /// The user cancelled the save dialog; benign.
    NoFileSelected,
    /// The chosen path has no extension, so no file type can be picked.
    NoExtensionProvided,
    /// The extension is not valid Unicode.
    ExtensionInvalidUnicode,
    /// The extension names no supported format.
    ExtensionNotRecognized,
}

impl ExportError {
    /// The message shown to the user.
    pub fn message(&self) -> (r: &'static str)
        ensures
            *self is NoFileSelected ==> r@ == "no file was selected"@,
            *self is NoExtensionProvided ==> r@
                == "selected file has no extension. a suitable file type can not be selected"@,
            *self is ExtensionInvalidUnicode ==> r@
                == "selected file has an extension that is not valid unicode"@,
            *self is ExtensionNotRecognized ==> r@
                == "selected file has an unrecognized extensions"@,
    {
        match self {
            ExportError::NoFileSelected => "no file was selected",
            ExportError::NoExtensionProvided => "selected file has no extension. a suitable file type can not be selected",
            ExportError::ExtensionInvalidUnicode => "selected file has an extension that is not valid unicode",
            ExportError::ExtensionNotRecognized => "selected file has an unrecognized extensions",
        }
    }
}

/// Which file-backed renderer an export uses.
#[derive(Clone, Copy, Debug, PartialEq, Eq, Structural)]
pub enum ExportFormat {
    /// The vector renderer (`svg`).
    Svg,
    /// The raster renderer (`png`, `jpg` or `bmp`).
    Raster,
}

/// The save dialog's first filter group: vector graphics.
pub fn vector_filter() -> (r: (&'static str, [&'static str; 1]))
    ensures
        r.0@ == "Vector Graphics"@,
        r.1[0]@ == "svg"@,
{
    ("Vector Graphics", ["svg"])
}

/// The save dialog's second filter group: bitmap raster formats.
pub fn raster_filter() -> (r: (&'static str, [&'static str; 3]))
    ensures
        r.0@ == "Bitmap Raster"@,
        r.1[0]@ == "png"@,
        r.1[1]@ == "jpg"@,
        r.1[2]@ == "bmp"@,
{
    ("Bitmap Raster", ["png", "jpg", "bmp"])
}

/// The save dialog's title.
pub fn dialog_title() -> (r: &'static str)
    ensures
        r@ == "Export current view"@,
{
    "Export current view"
}

/// The byte `.`.
pub const DOT: u8 = 46;

/// The byte `/`.
pub const SLASH: u8 = 47;

/// Where the final path component begins: one past the last `/`, or 0.
pub open spec fn name_start(path: Seq<u8>) -> int
    decreases path.len(),
{
    if path.len() == 0 {
        0
    } else if path.last() == SLASH {
        path.len() as int
    } else {
        name_start(path.drop_last())
    }
}

/// The index of the last `.`, or -1 if there is none.
pub open spec fn last_dot(path: Seq<u8>) -> int
    decreases path.len(),
{
    if path.len() == 0 {
        -1
    } else if path.last() == DOT {
        path.len() - 1
    } else {
        last_dot(path.drop_last())
    }
}

/// The extension of a path: the bytes after the last `.` of the final path
/// component — none when that component has no `.`, or only a leading one.
pub open spec fn extension_of(path: Seq<u8>) -> Option<Seq<u8>> {
    if last_dot(path) > name_start(path) {
        Some(path.subrange(last_dot(path) + 1, path.len() as int))
    } else {
        None
    }
}

/// The bytes of `svg`.
pub open spec fn svg_bytes() -> Seq<u8> {
    seq![115u8, 118u8, 103u8]
}

/// The bytes of `png`.
pub open spec fn png_bytes() -> Seq<u8> {
    seq![112u8, 110u8, 103u8]
}

/// The bytes of `jpg`.
pub open spec fn jpg_bytes() -> Seq<u8> {
    seq![106u8, 112u8, 103u8]
}

/// The bytes of `bmp`.
pub open spec fn bmp_bytes() -> Seq<u8> {
    seq![98u8, 109u8, 112u8]
}

/// ASCII lowercasing, byte by byte.
pub open spec fn ascii_lower(s: Seq<u8>) -> Seq<u8> {
    s.map(
        |i: int, b: u8|
            if 65 <= b <= 90 {
                (b + 32) as u8
            } else {
                b
            },
    )
}

/// What an export does with the save dialog's answer: no path is the
/// benign cancellation; a path without extension, with a non-Unicode
/// extension, or with an unrecognized one is the matching error; `svg`
/// picks the vector renderer and `png`, `jpg` or `bmp` the raster one,
/// case-insensitively.
pub open spec fn classify_spec(selected: Option<Seq<u8>>) -> Result<ExportFormat, ExportError> {
    match selected {
        None => Err(ExportError::NoFileSelected),
        Some(path) => match extension_of(path) {
            None => Err(ExportError::NoExtensionProvided),
            Some(ext) => if !valid_utf8(ext) {
                Err(ExportError::ExtensionInvalidUnicode)
            } else {
                let lower = ascii_lower(ext);
                if lower == svg_bytes() {
                    Ok(ExportFormat::Svg)
                } else if lower == png_bytes() || lower == jpg_bytes() || lower == bmp_bytes() {
                    Ok(ExportFormat::Raster)
                } else {
                    Err(ExportError::ExtensionNotRecognized)
                }
            },
        },
    }
}

/// The dialog answer as a byte sequence.
pub open spec fn selected_view(selected: Option<&Vec<u8>>) -> Option<Seq<u8>> {
    match selected {
        None => None,
        Some(p) => Some(p@),
    }
}

#[verifier::external_type_specification]
#[verifier::external_body]
pub struct ExUtf8Error(core::str::Utf8Error);

/// Relies on `core::str::from_utf8`: it returns `Ok` exactly on valid
/// UTF-8, and the string it returns decodes those bytes.
pub assume_specification[ core::str::from_utf8 ](v: &[u8]) -> (r: Result<
    &str,
    core::str::Utf8Error,
>)
    ensures
        r is Ok <==> valid_utf8(v@),
        r matches Ok(s) ==> s@ == decode_utf8(v@),
;

/// Extracts the extension bytes of a path, exactly as
/// [`extension_of`] describes.
pub fn extension_bytes(path: &Vec<u8>) -> (r: Option<Vec<u8>>)
    ensures
        r matches Some(v) ==> extension_of(path@) matches Some(e) && v@ == e,
        r is None ==> extension_of(path@) is None,
{
    let len: usize = path.len();
    let mut ns: usize = 0;
    let mut ld: Option<usize> = None;
    let mut i: usize = 0;
    while i < len
        invariant
            i <= len,
            len == path@.len(),
            ns as int == name_start(path@.take(i as int)),
            match ld {
                Some(d) => d < i && last_dot(path@.take(i as int)) == d as int,
                None => last_dot(path@.take(i as int)) == -1,
            },
        decreases len - i,
    {
        let b = path[i];
        proof {
            assert(path@.take(i as int + 1).drop_last() =~= path@.take(i as int));
            assert(path@.take(i as int + 1).last() == path@[i as int]);
        }
        if b == SLASH {
            ns = i + 1;
        }
        if b == DOT {
            ld = Some(i);
        }
        i = i + 1;
    }
    proof {
        assert(path@.take(len as int) =~= path@);
    }
    match ld {
        Some(d) => {
            if d > ns {
                let mut out: Vec<u8> = Vec::new();
                let mut j: usize = d + 1;
                while j < len
                    invariant
                        d + 1 <= j <= len,
                        len == path@.len(),
                        out@ == path@.subrange(d + 1, j as int),
                    decreases len - j,
                {
                    out.push(path[j]);
                    proof {
                        assert(out@ =~= path@.subrange(d + 1, j as int + 1));
                    }
                    j = j + 1;
                }
                Some(out)
            } else {
                None
            }
        },
        None => None,
    }
}

/// ASCII-lowercases a byte string.
pub fn to_ascii_lower(s: &Vec<u8>) -> (r: Vec<u8>)
    ensures
        r@ == ascii_lower(s@),
{
    let mut out: Vec<u8> = Vec::new();
    let mut i: usize = 0;
    while i < s.len()
        invariant
            i <= s@.len(),
            out@ == ascii_lower(s@.take(i as int)),
        decreases s@.len() - i,
    {
        let b = s[i];
        let lowered: u8 = if 65 <= b && b <= 90 {
            b + 32
        } else {
            b
        };
        out.push(lowered);
        proof {
            assert(out@ =~= ascii_lower(s@.take(i as int + 1)));
        }
        i = i + 1;
    }
    proof {
        assert(s@.take(s@.len() as int) =~= s@);
    }
    out
}

/// Whether a byte string is the given three bytes.
fn is3(v: &Vec<u8>, a: u8, b: u8, c: u8) -> (r: bool)
    ensures
        r == (v@ == seq![a, b, c]),
{
    let hit = v.len() == 3 && v[0] == a && v[1] == b && v[2] == c;
    proof {
        if hit {
            assert(v@ =~= seq![a, b, c]);
        } else {
            if v@ == seq![a, b, c] {
                assert(v@.len() == 3);
                assert(v@[0] == a && v@[1] == b && v@[2] == c);
            }
        }
    }
    hit
}

/// Decides what the export worker does with the save dialog's answer:
/// which file-backed renderer runs, or which error is reported, exactly as
/// [`classify_spec`] says. No renderer is touched on an `Err`.
pub fn classify_selection(selected: Option<&Vec<u8>>) -> (r: Result<ExportFormat, ExportError>)
    ensures
        r == classify_spec(selected_view(selected)),
{
    let path = match selected {
        None => {
            return Err(ExportError::NoFileSelected);
        },
        Some(p) => p,
    };
    let ext = match extension_bytes(path) {
        None => {
            return Err(ExportError::NoExtensionProvided);
        },
        Some(e) => e,
    };
    if core::str::from_utf8(ext.as_slice()).is_err() {
        return Err(ExportError::ExtensionInvalidUnicode);
    }
    let lower = to_ascii_lower(&ext);
    if is3(&lower, 115, 118, 103) {
        Ok(ExportFormat::Svg)
    } else if is3(&lower, 112, 110, 103) || is3(&lower, 106, 112, 103) || is3(
        &lower,
        98,
        109,
        112,
    ) {
        Ok(ExportFormat::Raster)
    } else {
        Err(ExportError::ExtensionNotRecognized)
    }
}

} // verus!
