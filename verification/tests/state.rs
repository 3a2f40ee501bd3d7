use clubfridge_neo::host::{LogViewerAction, LogViewerHost, LogViewerMessage};
use clubfridge_neo::keys::{
    is_log_viewer_shortcut, is_repeated_control_shortcut, KeyInput, KeyModifiers, NamedKey,
};
use clubfridge_neo::log_files::LogFileName;
use clubfridge_neo::log_viewer::LogViewerGeneration;

fn ctrl() -> KeyModifiers {
    KeyModifiers {
        control: true,
        ..KeyModifiers::empty()
    }
}

fn ctrl_shift() -> KeyModifiers {
    KeyModifiers {
        control: true,
        shift: true,
        ..KeyModifiers::empty()
    }
}

fn key(text: &str) -> KeyInput {
    KeyInput::Character(text.to_string())
}

#[test]
fn ignores_repeated_control_shortcuts() {
    assert!(is_repeated_control_shortcut(true, ctrl()));
    assert!(is_repeated_control_shortcut(true, ctrl_shift()));
    assert!(!is_repeated_control_shortcut(false, ctrl()));
    assert!(!is_repeated_control_shortcut(true, KeyModifiers::empty()));
}

#[test]
fn recognizes_ctrl_l_with_either_case_only() {
    assert!(is_log_viewer_shortcut(&key("l"), ctrl()));
    assert!(is_log_viewer_shortcut(&key("L"), ctrl_shift()));
    assert!(!is_log_viewer_shortcut(&key("l"), KeyModifiers::empty()));
    assert!(!is_log_viewer_shortcut(&key("k"), ctrl()));
    assert!(!is_log_viewer_shortcut(&key("ll"), ctrl()));
    assert!(!is_log_viewer_shortcut(
        &key("l"),
        KeyModifiers {
            alt: true,
            ..ctrl()
        }
    ));
    assert!(!is_log_viewer_shortcut(
        &key("l"),
        KeyModifiers {
            logo: true,
            ..ctrl()
        }
    ));
    assert!(!is_log_viewer_shortcut(&KeyInput::Named(NamedKey::Escape), ctrl()));
}

fn generation_of(host: &LogViewerHost) -> LogViewerGeneration {
    host.log_viewer().unwrap().generation()
}

#[test]
fn log_viewer_shortcuts_toggle_and_consume_key_input() {
    let mut host = LogViewerHost::new();

    assert!(matches!(
        host.update(LogViewerMessage::KeyPress(key("1"), KeyModifiers::empty())),
        LogViewerAction::Unhandled
    ));
    assert!(!host.is_open());

    let action = host.update(LogViewerMessage::KeyPress(key("l"), ctrl()));
    assert!(host.is_open());
    let first_generation = generation_of(&host);
    assert!(matches!(action, LogViewerAction::ScanLogFiles(g) if g == first_generation));
    assert!(host.log_viewer().unwrap().is_busy());

    assert!(matches!(
        host.update(LogViewerMessage::KeyPress(key("1"), KeyModifiers::empty())),
        LogViewerAction::Nothing
    ));
    assert!(host.is_open());

    host.update(LogViewerMessage::KeyPress(
        KeyInput::Named(NamedKey::Escape),
        KeyModifiers::empty(),
    ));
    assert!(!host.is_open());

    host.update(LogViewerMessage::KeyPress(key("l"), ctrl()));
    host.update(LogViewerMessage::CloseLogViewer);
    assert!(!host.is_open());

    host.update(LogViewerMessage::KeyPress(key("L"), ctrl_shift()));
    assert!(host.is_open());
    let second_generation = generation_of(&host);
    assert_ne!(first_generation, second_generation);
    assert_eq!(host.next_generation(), 4);

    host.update(LogViewerMessage::LogFileListLoaded {
        generation: first_generation,
        result: Ok(Vec::new()),
    });
    assert!(host.log_viewer().unwrap().is_busy());

    host.update(LogViewerMessage::LogFileListLoaded {
        generation: second_generation,
        result: Ok(Vec::new()),
    });
    assert!(!host.log_viewer().unwrap().is_busy());

    host.update(LogViewerMessage::KeyPress(key("l"), ctrl()));
    assert!(!host.is_open());
}

#[test]
fn routes_scans_and_reads_to_the_current_opening() {
    let file = LogFileName("clubfridge-neo.2026-07-21.log".to_string());
    let other = LogFileName("clubfridge-neo.2026-07-20.log".to_string());
    let mut host = LogViewerHost::new();

    assert!(matches!(
        host.update(LogViewerMessage::RefreshLogFiles),
        LogViewerAction::Nothing
    ));
    host.update(LogViewerMessage::KeyPress(key("l"), ctrl()));
    let generation = generation_of(&host);
    assert!(matches!(
        host.update(LogViewerMessage::RefreshLogFiles),
        LogViewerAction::Nothing
    ));

    let action = host.update(LogViewerMessage::LogFileListLoaded {
        generation,
        result: Ok(vec![other.clone(), file.clone()]),
    });
    assert!(matches!(
        action,
        LogViewerAction::LoadLogFile(g, ref n) if g == generation && *n == file
    ));

    host.update(LogViewerMessage::LogFileContentsLoaded {
        generation: LogViewerGeneration::new(99),
        file_name: file.clone(),
        result: Ok(b"wrong".to_vec()),
    });
    assert!(host.log_viewer().unwrap().is_busy());

    host.update(LogViewerMessage::LogFileContentsLoaded {
        generation,
        file_name: file.clone(),
        result: Ok(b"right".to_vec()),
    });
    assert_eq!(host.log_viewer().unwrap().log_file_contents_text(), "right");

    let action = host.update(LogViewerMessage::SelectLogFile(other.clone()));
    assert!(matches!(
        action,
        LogViewerAction::LoadLogFile(g, ref n) if g == generation && *n == other
    ));

    host.update(LogViewerMessage::CloseLogViewer);
    host.update(LogViewerMessage::LogFileContentsLoaded {
        generation,
        file_name: other,
        result: Ok(b"late".to_vec()),
    });
    assert!(!host.is_open());
}
