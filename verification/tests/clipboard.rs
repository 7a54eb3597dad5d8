use kt_ui::clipboard::{clipboard_text, ClipboardError};

#[test]
fn empty_clipboard_is_not_an_error() {
    assert_eq!(clipboard_text(Err(ClipboardError::ContentNotAvailable)), Ok(None));
}

#[test]
fn clipboard_text_is_returned_as_is() {
    assert_eq!(clipboard_text(Ok("ls -al\n".to_string())), Ok(Some("ls -al\n".to_string())));
}

#[test]
fn other_clipboard_failures_keep_their_description() {
    let error = clipboard_text(Err(ClipboardError::Other { description: "剪贴板被占用".to_string() })).unwrap_err();
    assert!(error.contains("剪贴板被占用"), "{error}");
}
