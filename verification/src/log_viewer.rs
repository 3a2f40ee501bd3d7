use vstd::prelude::*;
use vstd::utf8::{decode_utf8, valid_utf8};
use crate::log_files::{names_view, LogFileName};
use crate::log_line::{colored_lines, is_line_split, span_texts, spans_colored, LogLineSpan};
use crate::text::{append_str, decode_utf8_lossy, utf8_lossy};

verus! {

/// Shown while the first directory scan runs.
pub const LOADING_FILES_TEXT: &'static str = "Logdateien werden geladen…";

/// Shown while a later directory scan runs.
pub const UPDATING_FILES_TEXT: &'static str = "Logdateien werden aktualisiert…";

/// Put before the message of a failed directory scan.
pub const SCAN_FAILED_TEXT: &'static str = "Logdateien konnten nicht geladen werden: ";

/// Shown when the log directory holds no log files.
pub const NO_FILES_TEXT: &'static str = "Keine Logdateien gefunden.";

/// Shown while the selected file is read.
pub const LOADING_FILE_TEXT: &'static str = "Logdatei wird geladen…";

/// Shown for a selected file without contents.
pub const EMPTY_FILE_TEXT: &'static str = "Logdatei ist leer.";

/// Put before the message of a failed file read.
pub const READ_FAILED_TEXT: &'static str = "Logdatei konnte nicht gelesen werden: ";

/// The header title while no file is selected.
pub const NO_SELECTION_TITLE: &'static str = "Logs";

/// Identifies one opening of the hidden log viewer.
#[derive(Debug, Clone, Copy, PartialEq, Eq)]
pub struct LogViewerGeneration(u64);

impl View for LogViewerGeneration {
    type V = u64;

    closed spec fn view(&self) -> u64 {
        self.0
    }
}

impl LogViewerGeneration {
    /// The generation with this number.
    pub closed spec fn new_spec(value: u64) -> LogViewerGeneration {
        LogViewerGeneration(value)
    }

    /// `new_spec` numbers generations as given.
    pub broadcast proof fn lemma_new_spec_view(value: u64)
        ensures
            (#[trigger] LogViewerGeneration::new_spec(value))@ == value,
    {
    }

    /// Creates a viewer generation from the app-owned opening counter.
    pub fn new(value: u64) -> (r: Self)
        ensures
            r@ == value,
            r == LogViewerGeneration::new_spec(value),
    {
        Self(value)
    }

    /// Whether both generations are the same.
    pub fn same_as(&self, other: &LogViewerGeneration) -> (r: bool)
        ensures
            r == (self@ == other@),
    {
        self.0 == other.0
    }
}

/// The abstract state of the selected file.
pub enum SelectionView {
    NoFile,
    Loading(Seq<char>),
    Loaded(Seq<char>, Seq<char>),
    Failed(Seq<char>, Seq<char>),
}

/// The file that a selection refers to.
pub open spec fn selected_name(s: SelectionView) -> Option<Seq<char>> {
    match s {
        SelectionView::NoFile => None,
        SelectionView::Loading(n) => Some(n),
        SelectionView::Loaded(n, _) => Some(n),
        SelectionView::Failed(n, _) => Some(n),
    }
}

/// The selected file and what is known of its contents.
pub enum LogFileSelection {
    NoFile,
    Loading(LogFileName),
    Loaded { file_name: LogFileName, contents: String },
    Failed { file_name: LogFileName, error: String },
}

impl View for LogFileSelection {
    type V = SelectionView;

    open spec fn view(&self) -> SelectionView {
        match self {
            LogFileSelection::NoFile => SelectionView::NoFile,
            LogFileSelection::Loading(n) => SelectionView::Loading(n@),
            LogFileSelection::Loaded { file_name, contents } => SelectionView::Loaded(
                file_name@,
                contents@,
            ),
            LogFileSelection::Failed { file_name, error } => SelectionView::Failed(
                file_name@,
                error@,
            ),
        }
    }
}

impl LogFileSelection {
    /// The selected file, if any.
    pub fn file_name(&self) -> (r: Option<&LogFileName>)
        ensures
            match r {
                Some(n) => selected_name(self@) == Some(n@),
                None => selected_name(self@) is None,
            },
    {
        match self {
            Self::NoFile => None,
            Self::Loading(file_name) => Some(file_name),
            Self::Loaded { file_name, .. } => Some(file_name),
            Self::Failed { file_name, .. } => Some(file_name),
        }
    }
}

/// The abstract state of the log viewer.
pub struct LogViewerView {
    pub generation: u64,
    pub log_files: Seq<Seq<char>>,
    pub selection: SelectionView,
    pub scan_error: Option<Seq<char>>,
    pub is_scanning: bool,
}

/// The state of a freshly opened viewer.
pub open spec fn initial_viewer(generation: u64) -> LogViewerView {
    LogViewerView {
        generation,
        log_files: Seq::empty(),
        selection: SelectionView::NoFile,
        scan_error: None,
        is_scanning: false,
    }
}

/// A directory scan or a file read is running.
pub open spec fn busy(v: LogViewerView) -> bool {
    v.is_scanning || v.selection is Loading
}

/// The file to select after a scan: the previous selection when it is still
/// listed, else the last (newest) listed file, else none.
pub open spec fn retained_selection(previous: Option<Seq<char>>, files: Seq<Seq<char>>) -> Option<
    Seq<char>,
> {
    match previous {
        Some(n) if files.contains(n) => Some(n),
        _ => if files.len() > 0 {
            Some(files.last())
        } else {
            None
        },
    }
}

/// The viewer after a refresh was asked for.
pub open spec fn after_refresh(v: LogViewerView) -> LogViewerView {
    if busy(v) {
        v
    } else {
        LogViewerView { is_scanning: true, scan_error: None, ..v }
    }
}

/// The viewer after a scan listed `files`.
pub open spec fn after_file_list(v: LogViewerView, files: Seq<Seq<char>>) -> LogViewerView {
    LogViewerView {
        log_files: files,
        scan_error: None,
        is_scanning: false,
        selection: match retained_selection(selected_name(v.selection), files) {
            Some(n) => SelectionView::Loading(n),
            None => SelectionView::NoFile,
        },
        ..v
    }
}

/// The viewer after a scan failed with `error`.
pub open spec fn after_scan_failure(v: LogViewerView, error: Seq<char>) -> LogViewerView {
    LogViewerView { scan_error: Some(error), is_scanning: false, ..v }
}

/// The viewer after the user picked `name`: taken only when idle and listed.
pub open spec fn after_select(v: LogViewerView, name: Seq<char>) -> LogViewerView {
    if !busy(v) && v.log_files.contains(name) {
        LogViewerView { selection: SelectionView::Loading(name), ..v }
    } else {
        v
    }
}

/// The viewer after the read of `name` ended with `result` (decoded text or
/// error message): taken only for the selected file.
pub open spec fn after_file_text(
    v: LogViewerView,
    name: Seq<char>,
    result: Result<Seq<char>, Seq<char>>,
) -> LogViewerView {
    if selected_name(v.selection) == Some(name) {
        LogViewerView {
            selection: match result {
                Ok(text) => SelectionView::Loaded(name, text),
                Err(error) => SelectionView::Failed(name, error),
            },
            ..v
        }
    } else {
        v
    }
}

/// The text of the content pane.
pub open spec fn contents_text(v: LogViewerView) -> Seq<char> {
    match v.selection {
        SelectionView::NoFile => match v.scan_error {
            Some(error) => SCAN_FAILED_TEXT@ + error,
            None => if v.is_scanning {
                LOADING_FILES_TEXT@
            } else {
                NO_FILES_TEXT@
            },
        },
        SelectionView::Loading(_) => LOADING_FILE_TEXT@,
        SelectionView::Loaded(_, contents) => if contents.len() == 0 {
            EMPTY_FILE_TEXT@
        } else {
            contents
        },
        SelectionView::Failed(_, error) => READ_FAILED_TEXT@ + error,
    }
}

/// The file list, selection, and loaded snapshot shown in the log viewer.
pub struct LogViewer {
    generation: LogViewerGeneration,
    log_files: Vec<LogFileName>,
    selection: LogFileSelection,
    scan_error: Option<String>,
    is_scanning: bool,
}

impl View for LogViewer {
    type V = LogViewerView;

    closed spec fn view(&self) -> LogViewerView {
        LogViewerView {
            generation: self.generation@,
            log_files: names_view(self.log_files@),
            selection: self.selection@,
            scan_error: match self.scan_error {
                Some(e) => Some(e@),
                None => None,
            },
            is_scanning: self.is_scanning,
        }
    }
}

fn contains_name(files: &Vec<LogFileName>, name: &LogFileName) -> (r: bool)
    ensures
        r == names_view(files@).contains(name@),
{
    let mut i: usize = 0;
    while i < files.len()
        invariant
            0 <= i <= files@.len(),
            forall|k: int| 0 <= k < i ==> names_view(files@)[k] != name@,
        decreases files@.len() - i,
    {
        if files[i].same_as(name) {
            assert(names_view(files@)[i as int] == name@);
            return true;
        }
        i = i + 1;
    }
    false
}

impl LogViewer {
    /// Creates an empty log viewer for one opening of the hidden mode.
    pub fn new(generation: LogViewerGeneration) -> (r: Self)
        ensures
            r@ == initial_viewer(generation@),
    {
        let r = Self {
            generation,
            log_files: Vec::new(),
            selection: LogFileSelection::NoFile,
            scan_error: None,
            is_scanning: false,
        };
        assert(names_view(r.log_files@) =~= Seq::<Seq<char>>::empty());
        r
    }

    /// Returns the generation that owns this viewer and its async results.
    pub fn generation(&self) -> (r: LogViewerGeneration)
        ensures
            r@ == self@.generation,
    {
        self.generation
    }

    /// Reports whether a directory scan or file read is currently running.
    pub fn is_busy(&self) -> (r: bool)
        ensures
            r == busy(self@),
    {
        self.is_scanning || matches!(self.selection, LogFileSelection::Loading(_))
    }

    /// Starts a fresh scan unless another viewer operation is still running;
    /// `true` when the caller is to scan the log directory now.
    pub fn refresh_log_files(&mut self) -> (started: bool)
        ensures
            started == !busy(old(self)@),
            final(self)@ == after_refresh(old(self)@),
    {
        if self.is_busy() {
            return false;
        }
        self.is_scanning = true;
        self.scan_error = None;
        true
    }

    /// Applies a completed directory scan; gives the retained or newest
    /// selection, which the caller is to load.
    pub fn apply_log_file_list_result(&mut self, result: Result<Vec<LogFileName>, String>) -> (r:
        Option<LogFileName>)
        ensures
            match result {
                Ok(files) => {
                    &&& final(self)@ == after_file_list(old(self)@, names_view(files@))
                    &&& opt_name(r) == retained_selection(
                        selected_name(old(self)@.selection),
                        names_view(files@),
                    )
                },
                Err(error) => {
                    &&& final(self)@ == after_scan_failure(old(self)@, error@)
                    &&& r is None
                },
            },
    {
        match result {
            Ok(log_files) => self.apply_log_file_list(log_files),
            Err(error) => {
                self.scan_error = Some(error);
                self.is_scanning = false;
                None
            },
        }
    }

    /// Selects a log file that is present in the latest directory scan; gives
    /// the file that the caller is to load.
    pub fn load_selected_log_file(&mut self, file_name: LogFileName) -> (r: Option<LogFileName>)
        ensures
            final(self)@ == after_select(old(self)@, file_name@),
            r is Some <==> (!busy(old(self)@) && old(self)@.log_files.contains(file_name@)),
            r matches Some(n) ==> n@ == file_name@,
    {
        self.select_log_file(file_name)
    }

    /// Applies file bytes only when they belong to the current selection.
    pub fn apply_log_file_contents(&mut self, file_name: LogFileName, result: Result<Vec<u8>, String>)
        ensures
            final(self)@ == after_file_text(
                old(self)@,
                file_name@,
                match result {
                    Ok(bytes) => Ok(utf8_lossy(bytes@)),
                    Err(error) => Err(error@),
                },
            ),
            result matches Ok(bytes) ==> (utf8_lossy(bytes@).len() == 0 <==> bytes@.len() == 0),
            result matches Ok(bytes) ==> (valid_utf8(bytes@) ==> utf8_lossy(bytes@) == decode_utf8(
                bytes@,
            )),
    {
        let text = match result {
            Ok(bytes) => Ok(decode_utf8_lossy(bytes.as_slice())),
            Err(error) => Err(error),
        };
        self.apply_log_file_text(file_name, text)
    }

    /// Applies the decoded text of a file read only when it belongs to the
    /// current selection.
    pub fn apply_log_file_text(&mut self, file_name: LogFileName, result: Result<String, String>)
        ensures
            final(self)@ == after_file_text(
                old(self)@,
                file_name@,
                match result {
                    Ok(text) => Ok(text@),
                    Err(error) => Err(error@),
                },
            ),
    {
        let is_selected = match self.selected_log_file() {
            Some(selected) => selected.same_as(&file_name),
            None => false,
        };
        if !is_selected {
            return;
        }
        self.selection = match result {
            Ok(contents) => LogFileSelection::Loaded { file_name, contents },
            Err(error) => LogFileSelection::Failed { file_name, error },
        };
    }

    /// The selected file, if any.
    pub fn selected_log_file(&self) -> (r: Option<&LogFileName>)
        ensures
            match r {
                Some(n) => selected_name(self@.selection) == Some(n@),
                None => selected_name(self@.selection) is None,
            },
    {
        self.selection.file_name()
    }

    /// Applies a completed directory scan: keeps the selection when the file is
    /// still listed, else selects the newest file, and gives the file to load.
    pub fn apply_log_file_list(&mut self, log_files: Vec<LogFileName>) -> (r: Option<LogFileName>)
        ensures
            final(self)@ == after_file_list(old(self)@, names_view(log_files@)),
            opt_name(r) == retained_selection(
                selected_name(old(self)@.selection),
                names_view(log_files@),
            ),
    {
        let ghost files = names_view(log_files@);
        let retained = match self.selected_log_file() {
            Some(selected) => if contains_name(&log_files, selected) {
                Some(selected.duplicate())
            } else {
                None
            },
            None => None,
        };
        let selected_file = match retained {
            Some(n) => Some(n),
            None => if log_files.len() > 0 {
                let last = log_files[log_files.len() - 1].duplicate();
                assert(files.last() == last@);
                Some(last)
            } else {
                None
            },
        };
        self.selection = match &selected_file {
            Some(file_name) => LogFileSelection::Loading(file_name.duplicate()),
            None => LogFileSelection::NoFile,
        };
        self.log_files = log_files;
        self.scan_error = None;
        self.is_scanning = false;
        selected_file
    }

    /// Selects a listed file while the viewer is idle; gives the file to load.
    pub fn select_log_file(&mut self, file_name: LogFileName) -> (r: Option<LogFileName>)
        ensures
            final(self)@ == after_select(old(self)@, file_name@),
            r is Some <==> (!busy(old(self)@) && old(self)@.log_files.contains(file_name@)),
            r matches Some(n) ==> n@ == file_name@,
    {
        if self.is_busy() || !contains_name(&self.log_files, &file_name) {
            return None;
        }
        self.selection = LogFileSelection::Loading(file_name.duplicate());
        Some(file_name)
    }

    /// The spans of the content pane.
    pub fn log_file_contents_spans(&self) -> (spans: Vec<LogLineSpan>)
        ensures
            is_contents_spans(self@, spans@),
    {
        match &self.selection {
            LogFileSelection::Loaded { contents, .. } => if !contents.as_str().is_empty() {
                return colored_lines(contents.as_str());
            },
            _ => {},
        }
        let mut spans = Vec::new();
        spans.push(LogLineSpan { text: self.log_file_contents_text(), color: None });
        spans
    }

    /// What the viewer shows: the file list with its status, the header and
    /// the content pane.
    pub fn panel(&self) -> (p: LogViewerPanel)
        ensures
            is_panel_of(self@, p),
    {
        let file_list_status = if self.is_scanning {
            if self.log_files.len() == 0 {
                Some(LOADING_FILES_TEXT.to_owned())
            } else {
                Some(UPDATING_FILES_TEXT.to_owned())
            }
        } else {
            None
        };
        let scan_error_text = match &self.scan_error {
            Some(error) => {
                let mut text = SCAN_FAILED_TEXT.to_owned();
                append_str(&mut text, error.as_str());
                Some(text)
            },
            None => None,
        };
        let shows_no_files = self.log_files.len() == 0 && !self.is_scanning
            && self.scan_error.is_none();
        let selected = self.selected_log_file();
        let mut entries: Vec<LogFileEntry> = Vec::new();
        let mut i: usize = 0;
        while i < self.log_files.len()
            invariant
                0 <= i <= self.log_files@.len(),
                entries@.len() == i,
                match selected {
                    Some(n) => selected_name(self@.selection) == Some(n@),
                    None => selected_name(self@.selection) is None,
                },
                forall|k: int|
                    0 <= k < i ==> (#[trigger] entries@[k]).file_name@ == self@.log_files[k]
                        && entries@[k].is_selected == (selected_name(self@.selection) == Some(
                        self@.log_files[k],
                    )),
            decreases self.log_files@.len() - i,
        {
            let file_name = &self.log_files[i];
            let is_selected = match selected {
                Some(n) => n.same_as(file_name),
                None => false,
            };
            entries.push(LogFileEntry { file_name: file_name.duplicate(), is_selected });
            i = i + 1;
        }
        let title = match selected {
            Some(n) => n.as_str().to_owned(),
            None => NO_SELECTION_TITLE.to_owned(),
        };
        let idle = !self.is_busy();
        LogViewerPanel {
            file_list_status,
            scan_error_text,
            shows_no_files,
            entries,
            can_select: idle,
            title,
            can_refresh: idle,
            contents: self.log_file_contents_spans(),
        }
    }

    /// The text of the content pane: the file contents, or a German message
    /// for every state without them.
    pub fn log_file_contents_text(&self) -> (r: String)
        ensures
            r@ == contents_text(self@),
    {
        match &self.selection {
            LogFileSelection::NoFile => {
                match &self.scan_error {
                    Some(error) => {
                        let mut text = SCAN_FAILED_TEXT.to_owned();
                        append_str(&mut text, error.as_str());
                        text
                    },
                    None => if self.is_scanning {
                        LOADING_FILES_TEXT.to_owned()
                    } else {
                        NO_FILES_TEXT.to_owned()
                    },
                }
            },
            LogFileSelection::Loading(_) => LOADING_FILE_TEXT.to_owned(),
            LogFileSelection::Loaded { contents, .. } => if contents.as_str().is_empty() {
                EMPTY_FILE_TEXT.to_owned()
            } else {
                contents.clone()
            },
            LogFileSelection::Failed { error, .. } => {
                let mut text = READ_FAILED_TEXT.to_owned();
                append_str(&mut text, error.as_str());
                text
            },
        }
    }
}

/// The contents of the selected file when there are any to show line by line.
pub open spec fn shown_contents(v: LogViewerView) -> Option<Seq<char>> {
    match v.selection {
        SelectionView::Loaded(_, contents) => if contents.len() > 0 {
            Some(contents)
        } else {
            None
        },
        _ => None,
    }
}

/// The spans of the content pane: the lines of a non-empty file, each in the
/// colour of its level, or else one plain span with the pane's message.
pub open spec fn is_contents_spans(v: LogViewerView, spans: Seq<LogLineSpan>) -> bool {
    match shown_contents(v) {
        Some(contents) => is_line_split(contents, span_texts(spans)) && spans_colored(spans),
        None => spans.len() == 1 && spans[0].text@ == contents_text(v) && spans[0].color is None,
    }
}

/// The status line above the file list.
pub open spec fn file_list_status(v: LogViewerView) -> Option<Seq<char>> {
    if v.is_scanning {
        if v.log_files.len() == 0 {
            Some(LOADING_FILES_TEXT@)
        } else {
            Some(UPDATING_FILES_TEXT@)
        }
    } else {
        None
    }
}

/// The header title: the selected file, or a generic title.
pub open spec fn panel_title(v: LogViewerView) -> Seq<char> {
    match selected_name(v.selection) {
        Some(n) => n,
        None => NO_SELECTION_TITLE@,
    }
}

/// One file of the file list.
pub struct LogFileEntry {
    pub file_name: LogFileName,
    pub is_selected: bool,
}

/// Everything the full-screen viewer shows, and which of its buttons act.
pub struct LogViewerPanel {
    /// The scan status above the file list.
    pub file_list_status: Option<String>,
    /// The message of a failed scan, above the file list.
    pub scan_error_text: Option<String>,
    /// Whether the list shows that no log files were found.
    pub shows_no_files: bool,
    /// The listed files, in list order.
    pub entries: Vec<LogFileEntry>,
    /// Whether the file buttons select files.
    pub can_select: bool,
    /// The header title.
    pub title: String,
    /// Whether the refresh button acts.
    pub can_refresh: bool,
    /// The content pane.
    pub contents: Vec<LogLineSpan>,
}

/// What the viewer shows in state `v`.
pub open spec fn is_panel_of(v: LogViewerView, p: LogViewerPanel) -> bool {
    &&& match (p.file_list_status, file_list_status(v)) {
        (Some(a), Some(b)) => a@ == b,
        (None, None) => true,
        _ => false,
    }
    &&& match (p.scan_error_text, v.scan_error) {
        (Some(a), Some(e)) => a@ == SCAN_FAILED_TEXT@ + e,
        (None, None) => true,
        _ => false,
    }
    &&& p.shows_no_files == (v.log_files.len() == 0 && !v.is_scanning && v.scan_error is None)
    &&& p.entries@.len() == v.log_files.len()
    &&& forall|i: int|
        0 <= i < v.log_files.len() ==> (#[trigger] p.entries@[i]).file_name@ == v.log_files[i]
            && p.entries@[i].is_selected == (selected_name(v.selection) == Some(v.log_files[i]))
    &&& p.can_select == !busy(v)
    &&& p.title@ == panel_title(v)
    &&& p.can_refresh == !busy(v)
    &&& is_contents_spans(v, p.contents@)
}

/// A fresh viewer runs no scan or read, so its first refresh starts a scan.
pub proof fn lemma_new_viewer_is_idle(generation: u64)
    ensures
        !busy(initial_viewer(generation)),
        after_refresh(initial_viewer(generation)).is_scanning,
        contents_text(initial_viewer(generation)) == NO_FILES_TEXT@,
{
}

/// While a scan or read runs, selecting a file and refreshing change nothing:
/// the viewer runs one operation at a time.
pub proof fn lemma_busy_viewer_serializes(v: LogViewerView, name: Seq<char>)
    requires
        busy(v),
    ensures
        after_select(v, name) == v,
        after_refresh(v) == v,
{
}

/// A scan result ends the scan; afterwards the viewer is busy exactly when a
/// file was selected, whose read is then due.
pub proof fn lemma_scan_result_ends_scan(v: LogViewerView, files: Seq<Seq<char>>, error: Seq<char>)
    ensures
        !after_file_list(v, files).is_scanning,
        busy(after_file_list(v, files)) <==> files.len() > 0,
        !after_scan_failure(v, error).is_scanning,
{
}

/// After a refresh the selected file stays selected while it is still listed.
pub proof fn lemma_refresh_keeps_listed_selection(
    v: LogViewerView,
    files: Seq<Seq<char>>,
    name: Seq<char>,
)
    requires
        selected_name(v.selection) == Some(name),
        files.contains(name),
    ensures
        selected_name(after_file_list(after_refresh(v), files).selection) == Some(name),
{
}

/// After a refresh whose list lacks the selected file, the last listed file
/// is selected.
pub proof fn lemma_refresh_falls_back_to_newest(v: LogViewerView, files: Seq<Seq<char>>)
    requires
        !(selected_name(v.selection) matches Some(n) && files.contains(n)),
        files.len() > 0,
    ensures
        selected_name(after_file_list(after_refresh(v), files).selection) == Some(files.last()),
{
}

/// A scan that finds no files clears the selection, and the content pane
/// says that there are no log files.
pub proof fn lemma_no_files_clears_selection(v: LogViewerView)
    ensures
        after_file_list(v, Seq::empty()).selection == SelectionView::NoFile,
        contents_text(after_file_list(v, Seq::empty())) == NO_FILES_TEXT@,
{
}

/// The result of reading a file that is no longer selected changes nothing.
pub proof fn lemma_stale_read_ignored(
    v: LogViewerView,
    name: Seq<char>,
    result: Result<Seq<char>, Seq<char>>,
)
    requires
        selected_name(v.selection) != Some(name),
    ensures
        after_file_text(v, name, result) == v,
{
}

/// The content pane after a read of the selected file: the text when there
/// is any, a message for an empty file, and the error for a failed read.
pub proof fn lemma_read_outcome_text(v: LogViewerView, name: Seq<char>, text: Seq<char>, error: Seq<char>)
    requires
        selected_name(v.selection) == Some(name),
    ensures
        contents_text(after_file_text(v, name, Ok(text))) == if text.len() == 0 {
            EMPTY_FILE_TEXT@
        } else {
            text
        },
        contents_text(after_file_text(v, name, Err(error))) == READ_FAILED_TEXT@ + error,
        selected_name(after_file_text(v, name, Ok(text)).selection) == Some(name),
        !busy(after_file_text(v, name, Ok(text))) <==> !v.is_scanning,
{
}

/// The selected file, if any, is one of the listed files.
pub open spec fn selection_listed(v: LogViewerView) -> bool {
    selected_name(v.selection) matches Some(n) ==> v.log_files.contains(n)
}

/// One operation on the viewer, in abstract form.
pub enum ViewerStep {
    Refresh,
    FileList(Seq<Seq<char>>),
    ScanFailure(Seq<char>),
    Select(Seq<char>),
    FileText(Seq<char>, Result<Seq<char>, Seq<char>>),
}

/// The viewer after one operation.
pub open spec fn after_step(v: LogViewerView, step: ViewerStep) -> LogViewerView {
    match step {
        ViewerStep::Refresh => after_refresh(v),
        ViewerStep::FileList(files) => after_file_list(v, files),
        ViewerStep::ScanFailure(error) => after_scan_failure(v, error),
        ViewerStep::Select(name) => after_select(v, name),
        ViewerStep::FileText(name, result) => after_file_text(v, name, result),
    }
}

/// The viewer after a sequence of operations, applied first to last.
pub open spec fn after_steps(v: LogViewerView, steps: Seq<ViewerStep>) -> LogViewerView
    decreases steps.len(),
{
    if steps.len() == 0 {
        v
    } else {
        after_step(after_steps(v, steps.drop_last()), steps.last())
    }
}

/// Each operation keeps the viewer's generation and keeps the selected file
/// among the listed files.
pub proof fn lemma_step_keeps_generation_and_listed_selection(v: LogViewerView, step: ViewerStep)
    requires
        selection_listed(v),
    ensures
        after_step(v, step).generation == v.generation,
        selection_listed(after_step(v, step)),
{
    if let ViewerStep::FileList(files) = step {
        if files.len() > 0 {
            assert(files[files.len() - 1] == files.last());
        }
    }
}

/// Whatever operations a viewer goes through, its generation stays the one it
/// was opened with, and its selected file is always one of the files of the
/// latest applied scan.
pub proof fn lemma_viewer_keeps_generation_and_listed_selection(
    generation: u64,
    steps: Seq<ViewerStep>,
)
    ensures
        after_steps(initial_viewer(generation), steps).generation == generation,
        selection_listed(after_steps(initial_viewer(generation), steps)),
    decreases steps.len(),
{
    if steps.len() > 0 {
        lemma_viewer_keeps_generation_and_listed_selection(generation, steps.drop_last());
        lemma_step_keeps_generation_and_listed_selection(
            after_steps(initial_viewer(generation), steps.drop_last()),
            steps.last(),
        );
    }
}

/// The viewer's header names the selected file, or reads "Logs" without a
/// selection; the list highlights exactly the entries of the selected file,
/// which is among them when it is listed, and the header names the
/// highlighted file; the buttons act exactly while no scan or read runs; a
/// failed read shows its error after the German prefix.
pub proof fn lemma_panel_shows_selection(v: LogViewerView, p: LogViewerPanel)
    requires
        is_panel_of(v, p),
    ensures
        selected_name(v.selection) matches Some(n) ==> p.title@ == n,
        selected_name(v.selection) is None ==> p.title@ == NO_SELECTION_TITLE@,
        p.entries@.len() == v.log_files.len(),
        forall|i: int|
            0 <= i < p.entries@.len() ==> (#[trigger] p.entries@[i]).file_name@ == v.log_files[i]
                && (p.entries@[i].is_selected <==> selected_name(v.selection) == Some(
                p.entries@[i].file_name@,
            )),
        selection_listed(v) && selected_name(v.selection) is Some ==> exists|i: int|
            0 <= i < p.entries@.len() && (#[trigger] p.entries@[i]).is_selected
                && p.entries@[i].file_name@ == p.title@,
        p.can_select == !(v.is_scanning || v.selection is Loading),
        p.can_refresh == !(v.is_scanning || v.selection is Loading),
        v.is_scanning <==> p.file_list_status is Some,
        v.selection matches SelectionView::Failed(_, error) ==> p.contents@.len() == 1
            && p.contents@[0].text@ == READ_FAILED_TEXT@ + error,
        v.selection is Loading ==> p.contents@.len() == 1 && p.contents@[0].text@
            == LOADING_FILE_TEXT@,
        v.selection matches SelectionView::Loaded(_, text) ==> (text.len() > 0 ==> span_texts(
            p.contents@,
        ).flatten() == text),
{
    if selection_listed(v) && selected_name(v.selection) is Some {
        let n = selected_name(v.selection)->0;
        let i = choose|i: int| 0 <= i < v.log_files.len() && v.log_files[i] == n;
        assert(p.entries@[i].is_selected);
    }
}

/// What the content pane says in each state: the error of a failed scan when
/// nothing is selected, the progress of the first scan, that no files were
/// found, that the file is loading, the file's text, that the file is empty,
/// or the error of a failed read.
pub proof fn lemma_contents_text_messages(v: LogViewerView)
    ensures
        v.selection is NoFile ==> contents_text(v) == match v.scan_error {
            Some(error) => SCAN_FAILED_TEXT@ + error,
            None => if v.is_scanning {
                LOADING_FILES_TEXT@
            } else {
                NO_FILES_TEXT@
            },
        },
        v.selection is Loading ==> contents_text(v) == LOADING_FILE_TEXT@,
        v.selection matches SelectionView::Loaded(_, text) ==> contents_text(v) == if text.len()
            == 0 {
            EMPTY_FILE_TEXT@
        } else {
            text
        },
        v.selection matches SelectionView::Failed(_, error) ==> contents_text(v)
            == READ_FAILED_TEXT@ + error,
{
}

/// The name an optional file name holds.
pub open spec fn opt_name(n: Option<LogFileName>) -> Option<Seq<char>> {
    match n {
        Some(n) => Some(n@),
        None => None,
    }
}

} // verus!
