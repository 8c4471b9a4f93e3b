use elertan_cheat_base::helpers::{macos_show_alert_dialog, AlertDialog, ShowAlertDialogError};
use elertan_cheat_base::injection::find_process_id_by_process_name;

#[test]
fn dialog_without_title_reports_title_not_set() {
    let dialog = AlertDialog::new();
    assert_eq!(dialog.show(), Err(ShowAlertDialogError::TitleNotSet));
}

#[test]
fn dialog_without_message_reports_message_not_set() {
    let dialog = AlertDialog::new().title("ElertanCheatBase".to_string());
    assert_eq!(dialog.show(), Err(ShowAlertDialogError::MessageNotSet));
}

#[test]
fn dialog_with_message_only_still_reports_title_first() {
    let dialog = AlertDialog::new().message("Hello, Hook!".to_string());
    assert_eq!(dialog.show(), Err(ShowAlertDialogError::TitleNotSet));
}

#[test]
fn dialog_with_title_and_message_shows() {
    let dialog = AlertDialog::new()
        .title("ElertanCheatBase".to_string())
        .message("Hello, Hook!".to_string());
    assert_eq!(dialog.show(), Ok(()));
}

#[test]
fn dialog_builder_keeps_earlier_fields() {
    // Setting the message does not disturb the title and the other way
    // round, whatever the order.
    let dialog = AlertDialog::new()
        .message("body".to_string())
        .title("head".to_string());
    assert_eq!(dialog.show(), Ok(()));
}

#[test]
fn fallback_alert_dialog_reports_success() {
    assert_eq!(macos_show_alert_dialog("title", "message"), Ok(()));
}

#[test]
fn absent_process_name_finds_no_pid() {
    // A name no real process plausibly carries: the snapshot lookup comes
    // back empty.
    let name = "no_such_process_zq81_vxkt.exe";
    assert_eq!(find_process_id_by_process_name(name), None);
}
