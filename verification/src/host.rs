use vstd::prelude::*;
use crate::keys::{is_log_viewer_shortcut, is_log_viewer_shortcut_key, KeyInput, KeyModifiers, NamedKey};
use crate::log_files::{
    is_sorted_log_file_list, lemma_last_listed_is_greatest, names_view, LogFileName,
};
use crate::order::chars_le;
use crate::log_viewer::{
    after_file_list, after_file_text, after_refresh, after_scan_failure, after_select, busy,
    contents_text, initial_viewer, retained_selection, selected_name, LogViewer,
    LogViewerGeneration, LogViewerView, SelectionView, READ_FAILED_TEXT,
};
use crate::text::utf8_lossy;

verus! {

/// The messages that concern the hidden log viewer.
#[allow(inconsistent_fields)]
pub enum LogViewerMessage {
    /// A key was pressed anywhere in the application.
    KeyPress(KeyInput, KeyModifiers),
    /// The user asked for another scan of the log directory.
    RefreshLogFiles,
    /// The user closed the viewer.
    CloseLogViewer,
    /// A scan of the log directory completed.
    LogFileListLoaded { generation: LogViewerGeneration, result: Result<Vec<LogFileName>, String> },
    /// The user selected a file.
    SelectLogFile(LogFileName),
    /// A read of a log file completed.
    LogFileContentsLoaded {
        generation: LogViewerGeneration,
        file_name: LogFileName,
        result: Result<Vec<u8>, String>,
    },
}

/// What the application is to do after a log viewer message.
pub enum LogViewerAction {
    /// Nothing more.
    Nothing,
    /// Scan the log directory on behalf of this viewer generation.
    ScanLogFiles(LogViewerGeneration),
    /// Read this file on behalf of this viewer generation.
    LoadLogFile(LogViewerGeneration, LogFileName),
    /// The message is a key press that the viewer leaves to the screen below.
    Unhandled,
}

/// The abstract form of `LogViewerAction`.
pub enum ActionView {
    Nothing,
    Scan(u64),
    Load(u64, Seq<char>),
    Unhandled,
}

impl View for LogViewerAction {
    type V = ActionView;

    open spec fn view(&self) -> ActionView {
        match self {
            LogViewerAction::Nothing => ActionView::Nothing,
            LogViewerAction::ScanLogFiles(g) => ActionView::Scan(g@),
            LogViewerAction::LoadLogFile(g, n) => ActionView::Load(g@, n@),
            LogViewerAction::Unhandled => ActionView::Unhandled,
        }
    }
}

/// The abstract state of the log viewer's owner.
pub struct HostView {
    pub viewer: Option<LogViewerView>,
    pub next_generation: u64,
}

/// The state of a viewer right after it was opened: its first scan runs.
pub open spec fn opened_viewer(generation: u64) -> LogViewerView {
    after_refresh(initial_viewer(generation))
}

/// The text that a read result stands for.
pub open spec fn read_text(result: Result<Vec<u8>, String>) -> Result<Seq<char>, Seq<char>> {
    match result {
        Ok(bytes) => Ok(utf8_lossy(bytes@)),
        Err(error) => Err(error@),
    }
}

/// Message `m` opens the viewer: Ctrl+L while it is closed.
pub open spec fn opens_viewer(h: HostView, m: LogViewerMessage) -> bool {
    &&& h.viewer is None
    &&& m matches LogViewerMessage::KeyPress(key, modifiers) && is_log_viewer_shortcut_key(
        key,
        modifiers,
    )
}

/// The owner's state after message `m`.
pub open spec fn host_after(h: HostView, m: LogViewerMessage) -> HostView {
    match m {
        LogViewerMessage::KeyPress(key, modifiers) => if is_log_viewer_shortcut_key(key, modifiers) {
            if h.viewer is Some {
                HostView { viewer: None, ..h }
            } else {
                HostView {
                    viewer: Some(opened_viewer(h.next_generation)),
                    next_generation: (h.next_generation + 1) as u64,
                }
            }
        } else if key matches KeyInput::Named(NamedKey::Escape) {
            HostView { viewer: None, ..h }
        } else {
            h
        },
        LogViewerMessage::RefreshLogFiles => match h.viewer {
            Some(v) => HostView { viewer: Some(after_refresh(v)), ..h },
            None => h,
        },
        LogViewerMessage::CloseLogViewer => HostView { viewer: None, ..h },
        LogViewerMessage::LogFileListLoaded { generation, result } => match h.viewer {
            Some(v) => if v.generation == generation@ {
                HostView {
                    viewer: Some(
                        match result {
                            Ok(files) => after_file_list(v, names_view(files@)),
                            Err(error) => after_scan_failure(v, error@),
                        },
                    ),
                    ..h
                }
            } else {
                h
            },
            None => h,
        },
        LogViewerMessage::SelectLogFile(file_name) => match h.viewer {
            Some(v) => HostView { viewer: Some(after_select(v, file_name@)), ..h },
            None => h,
        },
        LogViewerMessage::LogFileContentsLoaded { generation, file_name, result } => match h.viewer {
            Some(v) => if v.generation == generation@ {
                HostView {
                    viewer: Some(after_file_text(v, file_name@, read_text(result))),
                    ..h
                }
            } else {
                h
            },
            None => h,
        },
    }
}

/// What the application is to do after message `m` in state `h`.
pub open spec fn host_action(h: HostView, m: LogViewerMessage) -> ActionView {
    match m {
        LogViewerMessage::KeyPress(key, modifiers) => if is_log_viewer_shortcut_key(key, modifiers) {
            if h.viewer is Some {
                ActionView::Nothing
            } else {
                ActionView::Scan(h.next_generation)
            }
        } else if h.viewer is Some {
            ActionView::Nothing
        } else {
            ActionView::Unhandled
        },
        LogViewerMessage::RefreshLogFiles => match h.viewer {
            Some(v) => if busy(v) {
                ActionView::Nothing
            } else {
                ActionView::Scan(v.generation)
            },
            None => ActionView::Nothing,
        },
        LogViewerMessage::CloseLogViewer => ActionView::Nothing,
        LogViewerMessage::LogFileListLoaded { generation, result } => match h.viewer {
            Some(v) => if v.generation == generation@ {
                match result {
                    Ok(files) => match retained_selection(
                        selected_name(v.selection),
                        names_view(files@),
                    ) {
                        Some(n) => ActionView::Load(v.generation, n),
                        None => ActionView::Nothing,
                    },
                    Err(_) => ActionView::Nothing,
                }
            } else {
                ActionView::Nothing
            },
            None => ActionView::Nothing,
        },
        LogViewerMessage::SelectLogFile(file_name) => match h.viewer {
            Some(v) => if !busy(v) && v.log_files.contains(file_name@) {
                ActionView::Load(v.generation, file_name@)
            } else {
                ActionView::Nothing
            },
            None => ActionView::Nothing,
        },
        LogViewerMessage::LogFileContentsLoaded { .. } => ActionView::Nothing,
    }
}

/// The owner's invariant: an open viewer's generation is below the number
/// that the next opening gets.
pub open spec fn host_wf(h: HostView) -> bool {
    h.viewer matches Some(v) ==> v.generation < h.next_generation
}

/// Ctrl+L opens a closed viewer, which starts its first scan under a fresh
/// generation, and closes an open one; pressed twice it leaves the viewer
/// closed again.
pub proof fn lemma_shortcut_toggles(h: HostView, key: KeyInput, modifiers: KeyModifiers)
    requires
        is_log_viewer_shortcut_key(key, modifiers),
        h.next_generation < u64::MAX,
    ensures
        host_after(h, LogViewerMessage::KeyPress(key, modifiers)).viewer is Some <==> h.viewer is None,
        h.viewer is None ==> host_after(h, LogViewerMessage::KeyPress(key, modifiers)).viewer == Some(
            opened_viewer(h.next_generation),
        ) && host_action(h, LogViewerMessage::KeyPress(key, modifiers)) == ActionView::Scan(
            h.next_generation,
        ),
        host_after(
            host_after(h, LogViewerMessage::KeyPress(key, modifiers)),
            LogViewerMessage::KeyPress(key, modifiers),
        ).viewer is Some <==> h.viewer is Some,
{
}

/// On each opening, the first scan selects the alphabetically last file,
/// which is the newest one, and asks for it to be read.
pub proof fn lemma_opening_selects_newest(
    h: HostView,
    entries: Seq<Seq<char>>,
    files: Vec<LogFileName>,
    key: KeyInput,
    modifiers: KeyModifiers,
)
    requires
        h.viewer is None,
        h.next_generation < u64::MAX,
        is_log_viewer_shortcut_key(key, modifiers),
        is_sorted_log_file_list(entries, names_view(files@)),
        files@.len() > 0,
    ensures
        ({
            let opened = host_after(h, LogViewerMessage::KeyPress(key, modifiers));
            let scanned = LogViewerMessage::LogFileListLoaded {
                generation: LogViewerGeneration::new_spec(h.next_generation),
                result: Ok(files),
            };
            let newest = names_view(files@).last();
            &&& host_action(opened, scanned) == ActionView::Load(h.next_generation, newest)
            &&& host_after(opened, scanned).viewer matches Some(v) && selected_name(v.selection)
                == Some(newest)
            &&& forall|i: int|
                0 <= i < files@.len() ==> chars_le(#[trigger] names_view(files@)[i], newest)
        }),
{
    LogViewerGeneration::lemma_new_spec_view(h.next_generation);
    lemma_last_listed_is_greatest(entries, names_view(files@));
}

/// Ctrl+L on a closed viewer opens an empty viewer numbered with the next
/// generation, whose first scan runs, and asks for that scan.
pub proof fn lemma_opening_starts_first_scan(h: HostView, key: KeyInput, modifiers: KeyModifiers)
    requires
        h.viewer is None,
        is_log_viewer_shortcut_key(key, modifiers),
        h.next_generation < u64::MAX,
    ensures
        host_after(h, LogViewerMessage::KeyPress(key, modifiers)) == (HostView {
            viewer: Some(
                LogViewerView {
                    generation: h.next_generation,
                    log_files: Seq::empty(),
                    selection: SelectionView::NoFile,
                    scan_error: None,
                    is_scanning: true,
                },
            ),
            next_generation: (h.next_generation + 1) as u64,
        }),
        host_action(h, LogViewerMessage::KeyPress(key, modifiers)) == ActionView::Scan(
            h.next_generation,
        ),
{
}

/// Refresh on an idle open viewer marks it as scanning, with its list,
/// selection and generation unchanged and any earlier scan error cleared, and
/// asks for a scan of the directory for that viewer's generation; on a busy
/// viewer it changes nothing and asks for nothing.
pub proof fn lemma_refresh_rescans(h: HostView, v: LogViewerView)
    requires
        h.viewer == Some(v),
    ensures
        !v.is_scanning && !(v.selection is Loading) ==> {
            &&& host_action(h, LogViewerMessage::RefreshLogFiles) == ActionView::Scan(v.generation)
            &&& host_after(h, LogViewerMessage::RefreshLogFiles) == (HostView {
                viewer: Some(
                    LogViewerView {
                        generation: v.generation,
                        log_files: v.log_files,
                        selection: v.selection,
                        scan_error: None,
                        is_scanning: true,
                    },
                ),
                next_generation: h.next_generation,
            })
        },
        v.is_scanning || v.selection is Loading ==> {
            &&& host_action(h, LogViewerMessage::RefreshLogFiles) == ActionView::Nothing
            &&& host_after(h, LogViewerMessage::RefreshLogFiles) == h
        },
{
}

/// Whenever a message leaves the open viewer scanning where no scan ran
/// before, the application is asked to scan for that viewer's generation:
/// no viewer waits for a scan that nobody started.
pub proof fn lemma_new_scan_is_started(h: HostView, m: LogViewerMessage)
    requires
        h.viewer matches Some(v) ==> !v.is_scanning,
        host_after(h, m).viewer matches Some(w) && w.is_scanning,
    ensures
        host_action(h, m) == ActionView::Scan(host_after(h, m).viewer->0.generation),
{
}

/// While the viewer is open, a key other than Ctrl+L and Escape changes
/// nothing and goes nowhere else.
pub proof fn lemma_open_viewer_ignores_other_keys(
    h: HostView,
    key: KeyInput,
    modifiers: KeyModifiers,
)
    requires
        h.viewer is Some,
        !is_log_viewer_shortcut_key(key, modifiers),
        !(key matches KeyInput::Named(NamedKey::Escape)),
    ensures
        host_after(h, LogViewerMessage::KeyPress(key, modifiers)) == h,
        host_action(h, LogViewerMessage::KeyPress(key, modifiers)) == ActionView::Nothing,
{
}

/// Close closes the viewer, keeps the generation counter and asks for nothing.
pub proof fn lemma_close(h: HostView)
    ensures
        host_after(h, LogViewerMessage::CloseLogViewer) == (HostView {
            viewer: None,
            next_generation: h.next_generation,
        }),
        host_action(h, LogViewerMessage::CloseLogViewer) == ActionView::Nothing,
{
}

/// A read result for the open viewer's selected file replaces the selection
/// with the file's text, or with the read error, which the content pane then
/// shows after its German prefix; nothing else changes.
pub proof fn lemma_read_result_shown(
    h: HostView,
    v: LogViewerView,
    generation: LogViewerGeneration,
    file_name: LogFileName,
    result: Result<Vec<u8>, String>,
)
    requires
        h.viewer == Some(v),
        v.generation == generation@,
        selected_name(v.selection) == Some(file_name@),
    ensures
        ({
            let m = LogViewerMessage::LogFileContentsLoaded { generation, file_name, result };
            let selection = match result {
                Ok(bytes) => SelectionView::Loaded(file_name@, utf8_lossy(bytes@)),
                Err(error) => SelectionView::Failed(file_name@, error@),
            };
            &&& host_after(h, m).viewer == Some(LogViewerView { selection, ..v })
            &&& host_after(h, m).next_generation == h.next_generation
            &&& host_action(h, m) == ActionView::Nothing
            &&& result matches Err(error) ==> contents_text(host_after(h, m).viewer->0)
                == READ_FAILED_TEXT@ + error@
        }),
{
}

/// A scan result for the open viewer lists the scanned files, ends the scan
/// and selects, and asks to read, the previously selected file if it is still
/// listed, else the last listed file; with no files nothing is selected. A
/// failed scan keeps list and selection and records the error.
pub proof fn lemma_scan_result_applied(
    h: HostView,
    v: LogViewerView,
    generation: LogViewerGeneration,
    result: Result<Vec<LogFileName>, String>,
)
    requires
        h.viewer == Some(v),
        v.generation == generation@,
    ensures
        ({
            let m = LogViewerMessage::LogFileListLoaded { generation, result };
            let after = host_after(h, m);
            &&& after.next_generation == h.next_generation
            &&& after.viewer matches Some(w) && w.generation == v.generation && !w.is_scanning
            &&& result matches Err(error) ==> {
                &&& after.viewer == Some(
                    LogViewerView { scan_error: Some(error@), is_scanning: false, ..v },
                )
                &&& host_action(h, m) == ActionView::Nothing
            }
            &&& result matches Ok(files) ==> {
                let names = names_view(files@);
                &&& after.viewer->0.log_files == names
                &&& after.viewer->0.scan_error is None
                &&& selected_name(v.selection) matches Some(n) ==> (names.contains(n) ==> {
                    &&& after.viewer->0.selection == SelectionView::Loading(n)
                    &&& host_action(h, m) == ActionView::Load(v.generation, n)
                })
                &&& !(selected_name(v.selection) matches Some(n) && names.contains(n))
                    && names.len() > 0 ==> {
                    &&& after.viewer->0.selection == SelectionView::Loading(names.last())
                    &&& host_action(h, m) == ActionView::Load(v.generation, names.last())
                }
                &&& names.len() == 0 ==> {
                    &&& after.viewer->0.selection == SelectionView::NoFile
                    &&& host_action(h, m) == ActionView::Nothing
                }
            }
        }),
{
}

/// Selecting a listed file on an idle open viewer starts reading it for that
/// viewer's generation; otherwise nothing changes and nothing is read.
pub proof fn lemma_select_loads_listed_file(h: HostView, v: LogViewerView, file_name: LogFileName)
    requires
        h.viewer == Some(v),
    ensures
        ({
            let m = LogViewerMessage::SelectLogFile(file_name);
            &&& (!v.is_scanning && !(v.selection is Loading) && v.log_files.contains(file_name@))
                ==> {
                &&& host_after(h, m).viewer == Some(
                    LogViewerView { selection: SelectionView::Loading(file_name@), ..v },
                )
                &&& host_action(h, m) == ActionView::Load(v.generation, file_name@)
            }
            &&& !(!v.is_scanning && !(v.selection is Loading) && v.log_files.contains(
                file_name@,
            )) ==> {
                &&& host_after(h, m) == h
                &&& host_action(h, m) == ActionView::Nothing
            }
        }),
{
}

/// Escape closes the viewer.
pub proof fn lemma_escape_closes(h: HostView, modifiers: KeyModifiers)
    ensures
        host_after(h, LogViewerMessage::KeyPress(KeyInput::Named(NamedKey::Escape), modifiers)).viewer
            is None,
{
}

/// While the viewer is open no key press reaches the screen below it.
pub proof fn lemma_open_viewer_consumes_keys(h: HostView, key: KeyInput, modifiers: KeyModifiers)
    requires
        h.viewer is Some,
    ensures
        host_action(h, LogViewerMessage::KeyPress(key, modifiers)) == ActionView::Nothing,
{
}

/// While the viewer is closed, a key press other than Ctrl+L is left to the
/// screen below and changes nothing here.
pub proof fn lemma_closed_viewer_passes_keys(h: HostView, key: KeyInput, modifiers: KeyModifiers)
    requires
        h.viewer is None,
        !is_log_viewer_shortcut_key(key, modifiers),
    ensures
        host_action(h, LogViewerMessage::KeyPress(key, modifiers)) == ActionView::Unhandled,
        host_after(h, LogViewerMessage::KeyPress(key, modifiers)) == h,
{
}

/// Results that arrive for a closed viewer neither reopen nor change it, and
/// start no further work.
pub proof fn lemma_closed_viewer_stays_closed(h: HostView, m: LogViewerMessage)
    requires
        h.viewer is None,
        !(m is KeyPress),
    ensures
        host_after(h, m) == h,
        host_action(h, m) == ActionView::Nothing,
{
}

/// A scan result for another opening of the viewer changes nothing.
pub proof fn lemma_stale_scan_ignored(
    h: HostView,
    generation: LogViewerGeneration,
    result: Result<Vec<LogFileName>, String>,
)
    requires
        h.viewer matches Some(v) && v.generation != generation@,
    ensures
        host_after(h, LogViewerMessage::LogFileListLoaded { generation, result }) == h,
        host_action(h, LogViewerMessage::LogFileListLoaded { generation, result })
            == ActionView::Nothing,
{
}

/// A read result for another opening of the viewer changes nothing.
pub proof fn lemma_stale_read_ignored_by_host(
    h: HostView,
    generation: LogViewerGeneration,
    file_name: LogFileName,
    result: Result<Vec<u8>, String>,
)
    requires
        h.viewer matches Some(v) && v.generation != generation@,
    ensures
        host_after(h, LogViewerMessage::LogFileContentsLoaded { generation, file_name, result })
            == h,
{
}

/// Every message keeps the invariant and never lowers the next generation,
/// so each opening gets a generation above those of all earlier openings.
pub proof fn lemma_generations_are_fresh(h: HostView, m: LogViewerMessage)
    requires
        host_wf(h),
        opens_viewer(h, m) ==> h.next_generation < u64::MAX,
    ensures
        host_wf(host_after(h, m)),
        host_after(h, m).next_generation >= h.next_generation,
        host_after(h, m).viewer matches Some(v) ==> (h.viewer is None ==> v.generation
            == h.next_generation),
{
}

/// The part of the application state that owns the hidden log viewer: the
/// viewer while it is open, and the counter that numbers its openings.
pub struct LogViewerHost {
    log_viewer: Option<LogViewer>,
    next_log_viewer_generation: u64,
}

impl View for LogViewerHost {
    type V = HostView;

    closed spec fn view(&self) -> HostView {
        HostView {
            viewer: match self.log_viewer {
                Some(v) => Some(v@),
                None => None,
            },
            next_generation: self.next_log_viewer_generation,
        }
    }
}

impl LogViewerHost {
    /// The state at application start: the viewer closed, the first opening
    /// numbered 1.
    pub fn new() -> (r: Self)
        ensures
            r@ == (HostView { viewer: None, next_generation: 1 }),
    {
        LogViewerHost { log_viewer: None, next_log_viewer_generation: 1 }
    }

    /// The open viewer, if any.
    pub fn log_viewer(&self) -> (r: Option<&LogViewer>)
        ensures
            match r {
                Some(v) => self@.viewer == Some(v@),
                None => self@.viewer is None,
            },
    {
        match &self.log_viewer {
            Some(v) => Some(v),
            None => None,
        }
    }

    /// Whether the viewer is open.
    pub fn is_open(&self) -> (r: bool)
        ensures
            r == self@.viewer is Some,
    {
        self.log_viewer.is_some()
    }

    /// The number that the next opening of the viewer gets.
    pub fn next_generation(&self) -> (r: u64)
        ensures
            r == self@.next_generation,
    {
        self.next_log_viewer_generation
    }

    /// Handles a message that concerns the log viewer: Ctrl+L opens or closes
    /// it, Escape closes it, other keys are consumed while it is open, and
    /// results of scans and reads apply only to the opening that asked for
    /// them.
    pub fn update(&mut self, message: LogViewerMessage) -> (action: LogViewerAction)
        requires
            opens_viewer(old(self)@, message) ==> old(self)@.next_generation < u64::MAX,
        ensures
            final(self)@ == host_after(old(self)@, message),
            action@ == host_action(old(self)@, message),
    {
        match message {
            LogViewerMessage::KeyPress(key, modifiers) => {
                if is_log_viewer_shortcut(&key, modifiers) {
                    if self.log_viewer.is_some() {
                        self.log_viewer = None;
                        return LogViewerAction::Nothing;
                    }
                    let generation = LogViewerGeneration::new(self.next_log_viewer_generation);
                    self.next_log_viewer_generation = self.next_log_viewer_generation + 1;
                    let mut log_viewer = LogViewer::new(generation);
                    let started = log_viewer.refresh_log_files();
                    self.log_viewer = Some(log_viewer);
                    assert(started);
                    return LogViewerAction::ScanLogFiles(generation);
                }
                let is_escape = match key {
                    KeyInput::Named(NamedKey::Escape) => true,
                    _ => false,
                };
                if self.log_viewer.is_some() {
                    if is_escape {
                        self.log_viewer = None;
                    }
                    LogViewerAction::Nothing
                } else {
                    LogViewerAction::Unhandled
                }
            },
            LogViewerMessage::RefreshLogFiles => {
                match &mut self.log_viewer {
                    Some(log_viewer) => {
                        if log_viewer.refresh_log_files() {
                            LogViewerAction::ScanLogFiles(log_viewer.generation())
                        } else {
                            LogViewerAction::Nothing
                        }
                    },
                    None => LogViewerAction::Nothing,
                }
            },
            LogViewerMessage::CloseLogViewer => {
                self.log_viewer = None;
                LogViewerAction::Nothing
            },
            LogViewerMessage::LogFileListLoaded { generation, result } => {
                match &mut self.log_viewer {
                    Some(log_viewer) => {
                        if log_viewer.generation().same_as(&generation) {
                            match log_viewer.apply_log_file_list_result(result) {
                                Some(file_name) => LogViewerAction::LoadLogFile(
                                    generation,
                                    file_name,
                                ),
                                None => LogViewerAction::Nothing,
                            }
                        } else {
                            LogViewerAction::Nothing
                        }
                    },
                    None => LogViewerAction::Nothing,
                }
            },
            LogViewerMessage::SelectLogFile(file_name) => {
                match &mut self.log_viewer {
                    Some(log_viewer) => {
                        let generation = log_viewer.generation();
                        match log_viewer.load_selected_log_file(file_name) {
                            Some(file_name) => LogViewerAction::LoadLogFile(generation, file_name),
                            None => LogViewerAction::Nothing,
                        }
                    },
                    None => LogViewerAction::Nothing,
                }
            },
            LogViewerMessage::LogFileContentsLoaded { generation, file_name, result } => {
                match &mut self.log_viewer {
                    Some(log_viewer) => {
                        if log_viewer.generation().same_as(&generation) {
                            log_viewer.apply_log_file_contents(file_name, result);
                        }
                    },
                    None => {},
                }
                LogViewerAction::Nothing
            },
        }
    }
}

} // verus!
