use base64::Engine;
use kt_ui::qr::qr_svg_path;
use kt_ui::scanner::{decode_greyscale_frame, first_decoded_content, interpret_frame_message, ScanOutcome, FRAME_SIDE};

fn encode(bytes: &[u8]) -> String {
    base64::engine::general_purpose::STANDARD.encode(bytes)
}

fn render_greyscale(data: &str, scale: usize) -> (Vec<u8>, usize) {
    let code = qrcode::QrCode::with_error_correction_level(data.as_bytes(), qrcode::EcLevel::M).unwrap();
    let width = code.width();
    let quiet = 4;
    let side = (width + quiet * 2) * scale;
    let colors = code.to_colors();
    let mut buffer = vec![255u8; side * side];
    for y in 0..width {
        for x in 0..width {
            if !matches!(colors[y * width + x], qrcode::Color::Dark) {
                continue;
            }
            for dy in 0..scale {
                for dx in 0..scale {
                    let px = (x + quiet) * scale + dx;
                    let py = (y + quiet) * scale + dy;
                    buffer[py * side + px] = 0;
                }
            }
        }
    }
    (buffer, side)
}

#[test]
fn decodes_a_rendered_pairing_payload() {
    let payload = "kitonyterms://lan-share?v=2&url=http://192.168.1.20:12345/v2/config&code=0123456789ABCDEFGHJKMNPQRS";
    let (buffer, side) = render_greyscale(payload, 4);
    assert_eq!(decode_greyscale_frame(&buffer, side, side).as_deref(), Some(payload));
    assert!(qr_svg_path(payload).is_some());
}

#[test]
fn blank_and_malformed_frames_decode_to_nothing() {
    assert!(decode_greyscale_frame(&[255; 64 * 64], 64, 64).is_none());
    assert!(decode_greyscale_frame(&[], 0, 0).is_none());
    assert!(decode_greyscale_frame(&[0; 10], 64, 64).is_none());
}

#[test]
fn frame_messages_map_to_outcomes() {
    assert_eq!(interpret_frame_message(1, 0, 0, ""), Some(ScanOutcome::PermissionDenied));
    assert_eq!(interpret_frame_message(2, 0, 0, ""), Some(ScanOutcome::Unsupported));
    assert_eq!(interpret_frame_message(3, 0, 0, ""), Some(ScanOutcome::Cancelled));
    assert!(interpret_frame_message(9, 0, 0, "").is_none());
}

#[test]
fn a_frame_message_carrying_a_code_is_decoded() {
    let code = "0123456789ABCDEFGHJKMNPQRS";
    let (buffer, side) = render_greyscale(code, 4);
    let payload = encode(&buffer);
    assert_eq!(
        interpret_frame_message(0, side, side, &payload),
        Some(ScanOutcome::Decoded(code.to_string()))
    );
}

#[test]
fn undecodable_frames_keep_the_scanner_running() {
    let payload = encode(&[255; 64 * 64]);
    assert!(interpret_frame_message(0, 64, 64, &payload).is_none());
}

#[test]
fn malformed_frame_payloads_are_rejected() {
    assert!(interpret_frame_message(0, 64, 64, "not base64").is_none());
    let short = encode(&[0; 10]);
    assert!(interpret_frame_message(0, 64, 64, &short).is_none());
    assert!(interpret_frame_message(0, FRAME_SIDE + 1, FRAME_SIDE, "").is_none());
}

#[test]
fn the_first_non_empty_grid_content_wins() {
    let grids = vec![None, Some(String::new()), Some("second".to_string()), Some("third".to_string())];
    assert_eq!(first_decoded_content(&grids).as_deref(), Some("second"));
    assert!(first_decoded_content(&[None, Some(String::new())]).is_none());
    assert!(first_decoded_content(&[]).is_none());
}

#[test]
fn frames_larger_than_the_camera_frame_are_rejected_before_decoding() {
    let (buffer, side) = render_greyscale("A", 4);
    assert!(side * side <= FRAME_SIDE * FRAME_SIDE);
    let payload = encode(&buffer);
    assert!(interpret_frame_message(0, FRAME_SIDE * FRAME_SIDE + 1, 1, &payload).is_none());
    assert!(interpret_frame_message(0, 0, 0, "").is_none());
    assert!(interpret_frame_message(0, usize::MAX, 2, "").is_none());
}
