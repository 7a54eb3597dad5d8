//! The pairing QR code as inline SVG path data: one `1x1` square per dark
//! module, offset by the quiet zone.

use vstd::prelude::*;
use crate::text::{decimal, push_decimal};

verus! {

/// The quiet zone around the code, in modules.
pub const QUIET_ZONE: u32 = 4;

/// The QR code `qrcode` builds for the bytes at error-correction level M:
/// its width in modules and its modules in row-major order (`true` is dark).
pub uninterp spec fn qr_code_m(data: Seq<u8>) -> Option<(usize, Seq<bool>)>;

/// Encodes bytes as a QR code at error-correction level M.
///
/// Calls `qrcode::QrCode::with_error_correction_level(data, EcLevel::M)`,
/// then `width()` and `to_colors()`, turning each colour into `true` for
/// `Color::Dark`. The result is named `qr_code_m`; the crate's source shows
/// that the code is a normal QR version 1 to 40 (width `4v + 17`) and that
/// it holds `width * width` modules.
#[verifier::external_body]
fn encode_qr_m(data: &[u8]) -> (r: Option<(usize, Vec<bool>)>)
    ensures
        match (r, qr_code_m(data@)) {
            (Some(code), Some(named)) => code.0 == named.0 && code.1@ == named.1,
            (None, None) => true,
            _ => false,
        },
        r matches Some(code) ==> 21 <= code.0 <= 177 && code.1@.len() == code.0 * code.0,
{
    qrcode::QrCode::with_error_correction_level(data, qrcode::EcLevel::M)
        .ok()
        .map(|code| (code.width(), code.to_colors().iter().map(|c| matches!(c, qrcode::Color::Dark)).collect()))
}

/// The sub-path of one module: a closed unit square at its position plus the quiet zone.
pub open spec fn module_square(index: nat, width: nat) -> Seq<char> {
    "M"@ + decimal(index % width + 4) + " "@ + decimal(index / width + 4) + "h1v1h-1z"@
}

/// The path of the first `n` modules.
pub open spec fn modules_path(modules: Seq<bool>, width: nat, n: nat) -> Seq<char>
    decreases n,
{
    if n == 0 {
        Seq::empty()
    } else {
        modules_path(modules, width, (n - 1) as nat) + if modules[n - 1] {
            module_square((n - 1) as nat, width)
        } else {
            Seq::empty()
        }
    }
}

/// The SVG path data and side length (with quiet zone) of a code of
/// `width` modules a side, or `None` when no module is dark.
pub open spec fn spec_modules_svg_path(width: usize, modules: Seq<bool>) -> Option<(Seq<char>, u32)> {
    let path = modules_path(modules, width as nat, modules.len());
    if path.len() == 0 {
        None
    } else {
        Some((path, (width + 8) as u32))
    }
}

/// The SVG path data and side length of the QR code of `data`, or `None`
/// when the data cannot be encoded or has no dark module.
pub open spec fn spec_qr_svg_path(data: Seq<char>) -> Option<(Seq<char>, u32)> {
    match qr_code_m(vstd::utf8::encode_utf8(data)) {
        Some((w, m)) => spec_modules_svg_path(w, m),
        None => None,
    }
}

/// Draws the modules of a code, row-major and `width` a side, as SVG path
/// data: one closed unit square per dark module. Returns the path and the
/// side including the quiet zone, or `None` when no module is dark.
pub fn modules_svg_path(width: usize, modules: &[bool]) -> (r: Option<(String, u32)>)
    requires
        1 <= width <= 177,
        modules@.len() == width * width,
    ensures
        match (r, spec_modules_svg_path(width, modules@)) {
            (Some(code), Some(named)) => code.0@ == named.0 && code.1 == named.1,
            (None, None) => true,
            _ => false,
        },
{
    let w: u32 = width as u32;
    let mut path = String::new();
    let mut index: usize = 0;
    while index < modules.len()
        invariant
            1 <= width <= 177,
            w == width,
            modules@.len() == width * width,
            index <= modules@.len(),
            path@ == modules_path(modules@, width as nat, index as nat),
        decreases modules@.len() - index,
    {
        if modules[index] {
            proof {
                assert(index < 177 * 177) by (nonlinear_arith)
                    requires
                        index < width * width,
                        width <= 177,
                ;
            }
            let i: u32 = index as u32;
            let x = i % w + QUIET_ZONE;
            let y = i / w + QUIET_ZONE;
            path.append("M");
            push_decimal(&mut path, x as u128);
            path.append(" ");
            push_decimal(&mut path, y as u128);
            path.append("h1v1h-1z");
        }
        index = index + 1;
    }
    if path.unicode_len() == 0 {
        None
    } else {
        Some((path, w + 2 * QUIET_ZONE))
    }
}

/// The SVG path data of the QR code (error-correction level M) of `data`
/// and its side in modules, including the quiet zone on both sides.
pub fn qr_svg_path(data: &str) -> (r: Option<(String, u32)>)
    ensures
        match (r, spec_qr_svg_path(data@)) {
            (Some(code), Some(named)) => code.0@ == named.0 && code.1 == named.1,
            (None, None) => true,
            _ => false,
        },
{
    match encode_qr_m(data.as_bytes()) {
        Some((width, modules)) => modules_svg_path(width, modules.as_slice()),
        None => None,
    }
}

/// Every module's square lies inside the code, clear of the quiet zone:
/// both of its coordinates are at least the quiet zone and less than the
/// width plus the quiet zone, so the drawn side (width plus both zones)
/// leaves the zone empty on every edge.
pub proof fn law_modules_stay_out_of_the_quiet_zone(index: nat, width: nat)
    requires
        width > 0,
        index < width * width,
    ensures
        QUIET_ZONE <= index % width + QUIET_ZONE < width + QUIET_ZONE,
        QUIET_ZONE <= index / width + QUIET_ZONE < width + QUIET_ZONE,
{
    assert(index / width < width) by (nonlinear_arith)
        requires
            width > 0,
            index < width * width,
    ;
    assert(index % width < width) by (nonlinear_arith)
        requires
            width > 0,
    ;
}

} // verus!
