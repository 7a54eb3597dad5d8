//! Reading a pairing QR code from camera frames: a frame message from the
//! web view is checked, its Base64 pixels decoded, and the greyscale image
//! searched for a QR code.

use vstd::prelude::*;

verus! {

/// The side, in pixels, of the frames the camera script sends.
pub const FRAME_SIDE: usize = 480;

/// The result of scanning.
#[derive(Debug, Clone, PartialEq, Eq)]
pub enum ScanOutcome {
    /// The content of a QR code was read.
    Decoded(String),
    /// The user cancelled.
    Cancelled,
    /// Camera access was denied.
    PermissionDenied,
    /// No usable camera.
    Unsupported,
}

/// The text contents `rqrr` decodes from the QR grids it detects in a
/// greyscale image (`None` for a grid that does not decode), in detection order.
pub uninterp spec fn qr_grid_contents(frame: Seq<u8>, width: usize, height: usize) -> Seq<Option<Seq<char>>>;

/// The bytes `base64`'s standard engine decodes from a text, or `None` when it is not valid Base64.
pub uninterp spec fn base64_standard_decode(text: Seq<char>) -> Option<Seq<u8>>;

/// The characters of an optional string.
pub open spec fn opt_view(o: Option<String>) -> Option<Seq<char>> {
    match o {
        Some(s) => Some(s@),
        None => None,
    }
}

/// The pixel at `(x, y)` of a row-major frame; white outside the frame.
pub fn pixel_at(frame: &[u8], width: usize, x: usize, y: usize) -> (r: u8)
    ensures
        (y as int) * (width as int) + (x as int) < frame@.len() ==> r == frame@[(y as int) * (width as int) + (x as int)],
        (y as int) * (width as int) + (x as int) >= frame@.len() ==> r == 255,
{
    let len = frame.len();
    let row = match y.checked_mul(width) {
        Some(row) => row,
        None => return 255,
    };
    let index = match row.checked_add(x) {
        Some(index) => index,
        None => return 255,
    };
    if index < len {
        frame[index]
    } else {
        255
    }
}

/// Counts the QR grids detected in a greyscale frame.
///
/// Calls `rqrr::PreparedImage::prepare_from_greyscale(width, height, ..)`
/// with the frame's pixels, then `detect_grids()`, and returns how many
/// grids it found: the length of `qr_grid_contents`. Nothing is decoded.
/// `prepare_from_greyscale` panics when `width * height` overflows, which
/// `requires` rules out. Detection follows the pixels alone, so a later call
/// on the same frame finds the same grids in the same order.
#[verifier::external_body]
fn qr_grid_count(frame: &[u8], width: usize, height: usize) -> (r: usize)
    requires
        width * height <= usize::MAX,
        frame@.len() == width * height,
    ensures
        r == qr_grid_contents(frame@, width, height).len(),
{
    let mut image = rqrr::PreparedImage::prepare_from_greyscale(width, height, |x, y| pixel_at(frame, width, x, y));
    image.detect_grids().len()
}

/// Decodes the QR grid at position `index` among those detected in a
/// greyscale frame.
///
/// Calls `prepare_from_greyscale` and `detect_grids()` as `qr_grid_count`
/// does, then `decode()` on that one grid only, keeping its text or `None`
/// when it does not decode: entry `index` of `qr_grid_contents`. `decode`
/// holds internal assertions that this contract assumes do not fire on a
/// detected grid; the caller decodes grids one at a time, and only until one
/// gives text.
#[verifier::external_body]
fn decode_qr_grid(frame: &[u8], width: usize, height: usize, index: usize) -> (r: Option<String>)
    requires
        width * height <= usize::MAX,
        frame@.len() == width * height,
        index < qr_grid_contents(frame@, width, height).len(),
    ensures
        opt_view(r) == qr_grid_contents(frame@, width, height)[index as int],
{
    let mut image = rqrr::PreparedImage::prepare_from_greyscale(width, height, |x, y| pixel_at(frame, width, x, y));
    match image.detect_grids().get(index) {
        Some(grid) => grid.decode().ok().map(|decoded| decoded.1),
        None => None,
    }
}

/// Decodes Base64 text with the standard alphabet and padding.
///
/// Calls `base64::engine::general_purpose::STANDARD.decode(text)`; a decode
/// error becomes `None`. The result is named `base64_standard_decode`.
#[verifier::external_body]
fn decode_base64(text: &str) -> (r: Option<Vec<u8>>)
    ensures
        match (r, base64_standard_decode(text@)) {
            (Some(v), Some(named)) => v@ == named,
            (None, None) => true,
            _ => false,
        },
{
    base64::Engine::decode(&base64::engine::general_purpose::STANDARD, text).ok()
}

/// The first non-empty content among decoded grids.
pub open spec fn first_content(contents: Seq<Option<Seq<char>>>) -> Option<Seq<char>>
    decreases contents.len(),
{
    if contents.len() == 0 {
        None
    } else if contents[0] matches Some(c) && c.len() > 0 {
        contents[0]
    } else {
        first_content(contents.drop_first())
    }
}

/// What `decode_greyscale_frame` reads from a frame.
pub open spec fn spec_decode_frame(frame: Seq<u8>, width: usize, height: usize) -> Option<Seq<char>> {
    if width * height > usize::MAX || width * height == 0 || frame.len() != width * height {
        None
    } else {
        first_content(qr_grid_contents(frame, width, height))
    }
}

/// The first non-empty text among the contents of decoded grids (`None`
/// for a grid that did not decode).
pub fn first_decoded_content(grids: &[Option<String>]) -> (r: Option<String>)
    ensures
        opt_view(r) == first_content(grids@.map_values(|o: Option<String>| opt_view(o))),
{
    let ghost contents = grids@.map_values(|o: Option<String>| opt_view(o));
    let mut i: usize = 0;
    assert(contents.skip(0) =~= contents);
    while i < grids.len()
        invariant
            i <= grids@.len(),
            contents == grids@.map_values(|o: Option<String>| opt_view(o)),
            first_content(contents) == first_content(contents.skip(i as int)),
        decreases grids@.len() - i,
    {
        assert(contents.skip(i as int)[0] == opt_view(grids@[i as int]));
        match &grids[i] {
            Some(content) => {
                if content.unicode_len() > 0 {
                    return Some(content.clone());
                }
            },
            None => {},
        }
        assert(contents.skip(i as int).drop_first() =~= contents.skip(i as int + 1));
        i = i + 1;
    }
    None
}

/// Reads a QR code from a row-major 8-bit greyscale frame of `width *
/// height` pixels: the first non-empty content of a decoded grid, or `None`.
pub fn decode_greyscale_frame(frame: &[u8], width: usize, height: usize) -> (r: Option<String>)
    ensures
        opt_view(r) == spec_decode_frame(frame@, width, height),
{
    let expected = match width.checked_mul(height) {
        Some(n) => n,
        None => return None,
    };
    if expected == 0 || frame.len() != expected {
        return None;
    }
    let count = qr_grid_count(frame, width, height);
    let ghost contents = qr_grid_contents(frame@, width, height);
    let mut i: usize = 0;
    assert(contents.skip(0) =~= contents);
    while i < count
        invariant
            i <= count,
            count == contents.len(),
            contents == qr_grid_contents(frame@, width, height),
            width * height <= usize::MAX,
            width * height > 0,
            frame@.len() == width * height,
            first_content(contents) == first_content(contents.skip(i as int)),
        decreases count - i,
    {
        assert(contents.skip(i as int)[0] == contents[i as int]);
        match decode_qr_grid(frame, width, height, i) {
            Some(text) => {
                if text.unicode_len() > 0 {
                    assert(contents.skip(i as int)[0] == Some(text@));
                    assert(first_content(contents.skip(i as int)) == Some(text@));
                    return Some(text);
                }
            },
            None => {},
        }
        assert(contents.skip(i as int).drop_first() =~= contents.skip(i as int + 1));
        i = i + 1;
    }
    None
}

/// The content a frame message (tag 0) carries: `None` when its size is
/// empty or larger than a camera frame, its pixels are not Base64 of
/// exactly `width * height` bytes, or no QR code is read from them.
pub open spec fn frame_content(width: usize, height: usize, pixels: Seq<char>) -> Option<Seq<char>> {
    if width * height == 0 || width * height > FRAME_SIDE * FRAME_SIDE {
        None
    } else {
        match base64_standard_decode(pixels) {
            Some(bytes) => if bytes.len() != width * height {
                None
            } else {
                spec_decode_frame(bytes, width, height)
            },
            None => None,
        }
    }
}

/// Interprets a message `[tag, width, height, base64_pixels]` from the
/// camera script: tag 0 carries a frame, 1 reports denied permission, 2 no
/// camera, 3 a cancel. `None` means "keep scanning".
pub fn interpret_frame_message(tag: u8, width: usize, height: usize, encoded_pixels: &str) -> (r: Option<ScanOutcome>)
    ensures
        tag == 0 ==> match (r, frame_content(width, height, encoded_pixels@)) {
            (Some(ScanOutcome::Decoded(text)), Some(content)) => text@ == content,
            (None, None) => true,
            _ => false,
        },
        tag == 1 ==> r == Some(ScanOutcome::PermissionDenied),
        tag == 2 ==> r == Some(ScanOutcome::Unsupported),
        tag == 3 ==> r == Some(ScanOutcome::Cancelled),
        tag > 3 ==> r is None,
{
    if tag == 0 {
        let expected = match width.checked_mul(height) {
            Some(n) => n,
            None => return None,
        };
        if expected == 0 || expected > FRAME_SIDE * FRAME_SIDE {
            return None;
        }
        let pixels = match decode_base64(encoded_pixels) {
            Some(bytes) => bytes,
            None => return None,
        };
        if pixels.len() != expected {
            return None;
        }
        match decode_greyscale_frame(pixels.as_slice(), width, height) {
            Some(content) => Some(ScanOutcome::Decoded(content)),
            None => None,
        }
    } else if tag == 1 {
        Some(ScanOutcome::PermissionDenied)
    } else if tag == 2 {
        Some(ScanOutcome::Unsupported)
    } else if tag == 3 {
        Some(ScanOutcome::Cancelled)
    } else {
        None
    }
}

} // verus!
