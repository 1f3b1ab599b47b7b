//! The file dialog: its state, the settings a caller chooses, the choices
//! that the widgets offer, and the commands that change it.
//!
//! The dialog never touches the file system itself. A command that needs
//! the file system is carried out as a conversation: [`FileDialog::start`]
//! and [`FileDialog::resume`] return a [`Request`] (probe a path, read a
//! folder, create a folder, rename, print a message); the caller performs
//! it and hands the outcome back as a [`Reply`], until the request is
//! [`Request::Done`].

use vstd::prelude::*;
use crate::paths::{
    opt_view, path_join, path_parent, path_with_file_name, spec_file_name, get_file_name, std_parent, std_join,
    std_with_file_name, path_eq, std_path_eq, path_file_name, plain_name,
};
use crate::listing::{Entry, strings_view, entries_view, listing_view, spec_read_folder, read_folder};

verus! {

/// Dialog state.
#[derive(Debug, PartialEq, Eq, Copy, Clone, Structural)]
pub enum State {
    /// Is open.
    Open,
    /// Was closed.
    Closed,
    /// Was canceled.
    Cancelled,
    /// File was selected.
    Selected,
}

/// Dialog type.
#[derive(Clone, Copy, Debug, Eq, PartialEq, Structural)]
pub enum DialogType {
    SelectFolder,
    OpenFile,
    SaveFile,
}

/// What the file system says of a path.
#[derive(Clone, Copy, Debug, Eq, PartialEq, Structural)]
pub struct PathKind {
    /// The path is a directory.
    pub is_dir: bool,
    /// The path is a regular file.
    pub is_file: bool,
}

/// Where a command that waits on the file system stands.
#[derive(Clone, Copy, Debug, Eq, PartialEq, Structural)]
pub enum Pending {
    /// Nothing is being carried out.
    Idle,
    /// The first listing of a new dialog is awaited.
    Load,
    /// The kind of a path to select is awaited.
    ProbeSelect,
    /// The kind of the selected path, to pick a folder, is awaited.
    ProbeFolder,
    /// The kind of a path to select and open is awaited.
    ProbeOpen,
    /// The kind of the selected path, to open it, is awaited.
    ProbeOpenSelected,
    /// A listing of the current folder is awaited.
    Listing,
    /// A listing is awaited, after which a path is selected.
    ListingThenProbe,
    /// The outcome of creating a folder is awaited.
    CreateDir,
    /// The outcome of a rename is awaited.
    Rename,
    /// A message is being printed.
    Report,
}

/// What the user asked for through the dialog's widgets.
#[derive(Debug)]
pub enum Command {
    Cancel,
    CreateDirectory,
    Folder,
    Open(String),
    OpenSelected,
    Refresh,
    Rename(String, String),
    Save(String),
    Select(String),
    UpDirectory,
}

/// What the dialog asks its caller to do next.
#[derive(Debug)]
pub enum Request {
    /// Nothing: the command is finished.
    Done,
    /// Print this line; reply [`Reply::Ack`].
    Log(String),
    /// Tell what the path is; reply [`Reply::Kind`].
    Probe(String),
    /// Read this folder; reply [`Reply::Listing`].
    ReadFolder(String),
    /// Create this folder; reply [`Reply::Outcome`].
    CreateDir(String),
    /// Rename the first path to the second; reply [`Reply::Outcome`].
    Rename(String, String),
}

/// The outcome of a request.
#[derive(Debug)]
pub enum Reply {
    /// The request had no result.
    Ack,
    /// The kind of the probed path.
    Kind(PathKind),
    /// The drive roots, and the entries of the folder or the error of its read.
    Listing(Vec<String>, Result<Vec<Entry>, String>),
    /// Whether the operation succeeded, or its error.
    Outcome(Result<(), String>),
}

/// A command, with its paths as characters.
pub enum CommandModel {
    Cancel,
    CreateDirectory,
    Folder,
    Open(Seq<char>),
    OpenSelected,
    Refresh,
    Rename(Seq<char>, Seq<char>),
    Save(Seq<char>),
    Select(Seq<char>),
    UpDirectory,
}

/// A request, with its paths as characters.
pub enum RequestModel {
    Done,
    Log(Seq<char>),
    Probe(Seq<char>),
    ReadFolder(Seq<char>),
    CreateDir(Seq<char>),
    Rename(Seq<char>, Seq<char>),
}

/// A reply, with its strings as characters.
pub enum ReplyModel {
    Ack,
    Kind(PathKind),
    Listing(Seq<String>, Result<Seq<Entry>, Seq<char>>),
    Outcome(Result<(), Seq<char>>),
}

impl View for Command {
    type V = CommandModel;

    open spec fn view(&self) -> CommandModel {
        match self {
            Command::Cancel => CommandModel::Cancel,
            Command::CreateDirectory => CommandModel::CreateDirectory,
            Command::Folder => CommandModel::Folder,
            Command::Open(p) => CommandModel::Open(p@),
            Command::OpenSelected => CommandModel::OpenSelected,
            Command::Refresh => CommandModel::Refresh,
            Command::Rename(a, b) => CommandModel::Rename(a@, b@),
            Command::Save(p) => CommandModel::Save(p@),
            Command::Select(p) => CommandModel::Select(p@),
            Command::UpDirectory => CommandModel::UpDirectory,
        }
    }
}

impl View for Request {
    type V = RequestModel;

    open spec fn view(&self) -> RequestModel {
        match self {
            Request::Done => RequestModel::Done,
            Request::Log(m) => RequestModel::Log(m@),
            Request::Probe(p) => RequestModel::Probe(p@),
            Request::ReadFolder(p) => RequestModel::ReadFolder(p@),
            Request::CreateDir(p) => RequestModel::CreateDir(p@),
            Request::Rename(a, b) => RequestModel::Rename(a@, b@),
        }
    }
}

impl View for Reply {
    type V = ReplyModel;

    open spec fn view(&self) -> ReplyModel {
        match self {
            Reply::Ack => ReplyModel::Ack,
            Reply::Kind(k) => ReplyModel::Kind(*k),
            Reply::Listing(d, l) => ReplyModel::Listing(d@, entries_view(*l)),
            Reply::Outcome(Ok(())) => ReplyModel::Outcome(Ok(())),
            Reply::Outcome(Err(e)) => ReplyModel::Outcome(Err(e@)),
        }
    }
}

/// The dialog, as the values its contracts speak of.
#[verifier::ext_equal]
pub struct DialogModel {
    /// The folder being shown.
    pub path: Seq<char>,
    /// The text of the folder field.
    pub path_edit: Seq<char>,
    /// The selected path, if any.
    pub selected_file: Option<Seq<char>>,
    /// The text of the file name field.
    pub filename_edit: Seq<char>,
    /// The listing of the folder, or the error of its read.
    pub files: Result<Seq<Seq<char>>, Seq<char>>,
    pub state: State,
    pub dialog_type: DialogType,
    pub resizable: bool,
    pub rename: bool,
    pub new_folder: bool,
    pub show_hidden: bool,
    /// Where an unfinished command stands.
    pub pending: Pending,
    /// The path (or message) an unfinished command works on.
    pub io_path: Seq<char>,
    /// The source path of an unfinished rename.
    pub io_from: Seq<char>,
}

/// The title of a dialog of the given type.
pub open spec fn spec_title(t: DialogType) -> Seq<char> {
    match t {
        DialogType::SelectFolder => "📁  Select Folder"@,
        DialogType::OpenFile => "📂  Open File"@,
        DialogType::SaveFile => "💾  Save File"@,
    }
}

/// Whether a name begins with a dot (a hidden file on Unix).
pub open spec fn starts_with_dot(name: Seq<char>) -> bool {
    name.len() > 0 && name[0] == '.'
}

/// The name of a folder made by "New Folder" when no name was typed.
pub open spec fn default_folder_name() -> Seq<char> {
    "New folder"@
}

/// The line printed when creating a folder fails.
pub open spec fn create_error_line(err: Seq<char>) -> Seq<char> {
    "Error while creating directory: "@ + err
}

/// The line printed when a rename fails.
pub open spec fn rename_error_line(err: Seq<char>) -> Seq<char> {
    "Error while renaming: "@ + err
}

/// The label of a listing row.
pub open spec fn spec_entry_label(path: Seq<char>, is_dir: bool) -> Seq<char> {
    (if is_dir { "🗀 "@ } else { "🗋 "@ }) + spec_file_name(path, is_dir)
}

/// The folder that holds `path` when `path` is a file, else `path` itself.
pub open spec fn initial_folder(path: Seq<char>, is_file: bool) -> Seq<char> {
    if is_file {
        match path_parent(path) {
            Some(p) => p,
            None => path,
        }
    } else {
        path
    }
}

/// A new dialog of type `t` on `path` (`is_file` tells whether `path` is a
/// file): closed, nothing selected, the file's name in the file name field,
/// its folder's listing awaited.
pub open spec fn spec_new(t: DialogType, path: Seq<char>, is_file: bool) -> DialogModel {
    let folder = initial_folder(path, is_file);
    DialogModel {
        path: folder,
        path_edit: folder,
        selected_file: None,
        filename_edit: if is_file { spec_file_name(path, false) } else { Seq::empty() },
        files: Ok(Seq::empty()),
        state: State::Closed,
        dialog_type: t,
        resizable: true,
        rename: true,
        new_folder: true,
        show_hidden: false,
        pending: Pending::Load,
        io_path: Seq::empty(),
        io_from: Seq::empty(),
    }
}

impl DialogModel {
    /// What the dialog asks of its caller in this state.
    pub open spec fn request(self) -> RequestModel {
        match self.pending {
            Pending::Idle => RequestModel::Done,
            Pending::Load => RequestModel::ReadFolder(self.path),
            Pending::ProbeSelect => RequestModel::Probe(self.io_path),
            Pending::ProbeFolder => RequestModel::Probe(self.io_path),
            Pending::ProbeOpen => RequestModel::Probe(self.io_path),
            Pending::ProbeOpenSelected => RequestModel::Probe(self.io_path),
            Pending::Listing => RequestModel::ReadFolder(self.path),
            Pending::ListingThenProbe => RequestModel::ReadFolder(self.path),
            Pending::CreateDir => RequestModel::CreateDir(self.io_path),
            Pending::Rename => RequestModel::Rename(self.io_from, self.io_path),
            Pending::Report => RequestModel::Log(self.io_path),
        }
    }

    /// `file` becomes the selection, and its name the file name field.
    pub open spec fn with_selection(self, file: Option<Seq<char>>, is_dir: bool) -> DialogModel {
        DialogModel {
            filename_edit: match file {
                Some(p) => spec_file_name(p, is_dir),
                None => Seq::empty(),
            },
            selected_file: file,
            ..self
        }
    }

    /// The folder's new listing is shown, the folder field shows the folder,
    /// and the selection is cleared.
    pub open spec fn refreshed(self, files: Result<Seq<Seq<char>>, Seq<char>>) -> DialogModel {
        DialogModel { files, path_edit: self.path, ..self }.with_selection(None, false)
    }

    /// The selection is confirmed.
    pub open spec fn confirmed(self) -> DialogModel {
        DialogModel { state: State::Selected, ..self }
    }

    /// Opens `self.io_path`, of kind `k`: a folder is entered (its listing
    /// awaited); a file confirms an "open file" dialog; anything else does
    /// nothing.
    pub open spec fn open_target(self, k: PathKind) -> DialogModel {
        if k.is_dir {
            DialogModel { path: self.io_path, pending: Pending::Listing, ..self }
        } else if k.is_file && self.dialog_type == DialogType::OpenFile {
            DialogModel { pending: Pending::Idle, ..self.confirmed() }
        } else {
            DialogModel { pending: Pending::Idle, ..self }
        }
    }

    /// The dialog after a command begins.
    pub open spec fn start(self, cmd: CommandModel) -> DialogModel {
        match cmd {
            CommandModel::Cancel => DialogModel { state: State::Cancelled, pending: Pending::Idle, ..self },
            CommandModel::CreateDirectory => if self.new_folder {
                DialogModel {
                    io_path: path_join(
                        self.path,
                        if self.filename_edit.len() == 0 {
                            default_folder_name()
                        } else {
                            self.filename_edit
                        },
                    ),
                    pending: Pending::CreateDir,
                    ..self
                }
            } else {
                DialogModel { pending: Pending::Idle, ..self }
            },
            CommandModel::Folder => match self.selected_file {
                Some(f) => DialogModel { io_path: f, pending: Pending::ProbeFolder, ..self },
                None => DialogModel {
                    selected_file: Some(self.path),
                    state: State::Selected,
                    pending: Pending::Idle,
                    ..self
                },
            },
            CommandModel::Open(p) => DialogModel { io_path: p, pending: Pending::ProbeOpen, ..self },
            CommandModel::OpenSelected => match self.selected_file {
                Some(f) => DialogModel { io_path: f, pending: Pending::ProbeOpenSelected, ..self },
                None => DialogModel { pending: Pending::Idle, ..self },
            },
            CommandModel::Refresh => DialogModel { pending: Pending::Listing, ..self },
            CommandModel::Rename(from, to) => if self.rename {
                DialogModel { io_from: from, io_path: to, pending: Pending::Rename, ..self }
            } else {
                DialogModel { pending: Pending::Idle, ..self }
            },
            CommandModel::Save(f) => DialogModel {
                selected_file: Some(f),
                state: State::Selected,
                pending: Pending::Idle,
                ..self
            },
            CommandModel::Select(p) => DialogModel { io_path: p, pending: Pending::ProbeSelect, ..self },
            CommandModel::UpDirectory => match path_parent(self.path) {
                Some(p) => DialogModel { path: p, pending: Pending::Listing, ..self },
                None => DialogModel { pending: Pending::Idle, ..self },
            },
        }
    }

    /// The dialog after the caller replies to its request. A reply that does
    /// not answer the request ends the command.
    pub open spec fn resume(self, reply: ReplyModel) -> DialogModel {
        match reply {
            ReplyModel::Kind(k) => match self.pending {
                Pending::ProbeSelect => DialogModel {
                    pending: Pending::Idle,
                    ..self.with_selection(Some(self.io_path), k.is_dir)
                },
                Pending::ProbeFolder => DialogModel {
                    selected_file: Some(if k.is_dir { self.io_path } else { self.path }),
                    state: State::Selected,
                    pending: Pending::Idle,
                    ..self
                },
                Pending::ProbeOpen => self.with_selection(Some(self.io_path), k.is_dir).open_target(k),
                Pending::ProbeOpenSelected => self.open_target(k),
                _ => DialogModel { pending: Pending::Idle, ..self },
            },
            ReplyModel::Listing(drives, entries) => match self.pending {
                Pending::Load => DialogModel {
                    files: spec_read_folder(drives, entries),
                    pending: Pending::Idle,
                    ..self
                },
                Pending::Listing => DialogModel {
                    pending: Pending::Idle,
                    ..self.refreshed(spec_read_folder(drives, entries))
                },
                Pending::ListingThenProbe => DialogModel {
                    pending: Pending::ProbeSelect,
                    ..self.refreshed(spec_read_folder(drives, entries))
                },
                _ => DialogModel { pending: Pending::Idle, ..self },
            },
            ReplyModel::Outcome(Ok(())) => match self.pending {
                Pending::CreateDir => DialogModel { pending: Pending::ListingThenProbe, ..self },
                Pending::Rename => DialogModel { pending: Pending::ListingThenProbe, ..self },
                _ => DialogModel { pending: Pending::Idle, ..self },
            },
            ReplyModel::Outcome(Err(e)) => match self.pending {
                Pending::CreateDir => DialogModel {
                    io_path: create_error_line(e),
                    pending: Pending::Report,
                    ..self
                },
                Pending::Rename => DialogModel {
                    io_path: rename_error_line(e),
                    pending: Pending::Report,
                    ..self
                },
                _ => DialogModel { pending: Pending::Idle, ..self },
            },
            ReplyModel::Ack => DialogModel { pending: Pending::Idle, ..self },
        }
    }

    /// The dialog when a frame begins: an open dialog is cancelled by
    /// Escape; a dialog that is not open is closed.
    pub open spec fn begin_frame(self, escape_pressed: bool) -> DialogModel {
        if self.state == State::Open {
            if escape_pressed {
                DialogModel { state: State::Cancelled, ..self }
            } else {
                self
            }
        } else {
            DialogModel { state: State::Closed, ..self }
        }
    }

    /// The dialog when a frame ends: closing its window closes it.
    pub open spec fn end_frame(self, window_open: bool) -> DialogModel {
        if window_open {
            self
        } else {
            DialogModel { state: State::Closed, ..self }
        }
    }

    /// Saving is possible when a path is selected or a name was typed.
    pub open spec fn can_save(self) -> bool {
        self.selected_file is Some || self.filename_edit.len() > 0
    }

    /// Opening is possible when a path is selected.
    pub open spec fn can_open(self) -> bool {
        self.selected_file is Some
    }

    /// Renaming is possible when a path is selected and the typed name
    /// differs from its name.
    pub open spec fn can_rename(self, selected_is_dir: bool) -> bool {
        match self.selected_file {
            Some(f) => self.filename_edit.len() > 0 && spec_file_name(f, selected_is_dir)
                != self.filename_edit,
            None => false,
        }
    }

    /// The path the file name field names.
    pub open spec fn filename_target(self) -> Seq<char> {
        path_join(self.path, self.filename_edit)
    }

    /// The command of Enter in the file name field, given what the named
    /// path is.
    pub open spec fn enter_command(self, exists: bool, is_dir: bool) -> Option<CommandModel> {
        if self.filename_edit.len() == 0 {
            None
        } else {
            match self.dialog_type {
                DialogType::SelectFolder => Some(CommandModel::Folder),
                DialogType::OpenFile => if exists {
                    Some(CommandModel::Open(self.filename_target()))
                } else {
                    None
                },
                DialogType::SaveFile => Some(
                    if is_dir {
                        CommandModel::Open(self.filename_target())
                    } else {
                        CommandModel::Save(self.filename_target())
                    },
                ),
            }
        }
    }

    /// Whether a listing row is shown, given what its path is and, for a
    /// file when a filter is set, the filter's verdict (`None`: no filter).
    pub open spec fn entry_shown(
        self,
        path: Seq<char>,
        is_dir: bool,
        is_file: bool,
        verdict: Option<bool>,
    ) -> bool {
        let kind_ok = is_dir || (is_file && match verdict {
            Some(v) => v,
            None => self.dialog_type != DialogType::SelectFolder,
        });
        kind_ok && (self.show_hidden || !starts_with_dot(spec_file_name(path, is_dir)))
    }

    /// The command of a double click on a listing row.
    pub open spec fn double_click_command(self, path: Seq<char>, is_dir: bool) -> CommandModel {
        if self.dialog_type == DialogType::SaveFile {
            if is_dir {
                CommandModel::OpenSelected
            } else {
                CommandModel::Save(path)
            }
        } else {
            CommandModel::Open(path)
        }
    }
}

/// The confirm button of the dialog: its label, whether it is enabled, and
/// the command a click gives.
pub struct PrimaryAction {
    /// The button reads "Save" (else "Open").
    pub save: bool,
    pub enabled: bool,
    pub command: Command,
}

/// `egui` component that represents `OpenFileDialog` or `SaveFileDialog`,
/// without its window geometry.
#[derive(Debug)]
pub struct FileDialog {
    path: String,
    path_edit: String,
    selected_file: Option<String>,
    filename_edit: String,
    files: Result<Vec<String>, String>,
    state: State,
    dialog_type: DialogType,
    resizable: bool,
    rename: bool,
    new_folder: bool,
    show_hidden: bool,
    pending: Pending,
    io_path: String,
    io_from: String,
}

impl View for FileDialog {
    type V = DialogModel;

    closed spec fn view(&self) -> DialogModel {
        DialogModel {
            path: self.path@,
            path_edit: self.path_edit@,
            selected_file: opt_view(self.selected_file),
            filename_edit: self.filename_edit@,
            files: listing_view(self.files),
            state: self.state,
            dialog_type: self.dialog_type,
            resizable: self.resizable,
            rename: self.rename,
            new_folder: self.new_folder,
            show_hidden: self.show_hidden,
            pending: self.pending,
            io_path: self.io_path@,
            io_from: self.io_from@,
        }
    }
}

fn clone_opt(o: &Option<String>) -> (r: Option<String>)
    ensures
        opt_view(r) == opt_view(*o),
{
    match o {
        Some(s) => Some(s.clone()),
        None => None,
    }
}

impl FileDialog {
    /// Create dialog that prompts the user to select a folder.
    pub fn select_folder(initial_path: String, initial_is_file: bool) -> (r: Self)
        requires
            !initial_is_file,
        ensures
            r@ == spec_new(DialogType::SelectFolder, initial_path@, initial_is_file),
    {
        FileDialog::new(DialogType::SelectFolder, initial_path, initial_is_file)
    }

    /// Create dialog that prompts the user to open a file.
    pub fn open_file(initial_path: String, initial_is_file: bool) -> (r: Self)
        ensures
            r@ == spec_new(DialogType::OpenFile, initial_path@, initial_is_file),
    {
        FileDialog::new(DialogType::OpenFile, initial_path, initial_is_file)
    }

    /// Create dialog that prompts the user to save a file.
    pub fn save_file(initial_path: String, initial_is_file: bool) -> (r: Self)
        ensures
            r@ == spec_new(DialogType::SaveFile, initial_path@, initial_is_file),
    {
        FileDialog::new(DialogType::SaveFile, initial_path, initial_is_file)
    }

    /// Constructs a new dialog on `initial_path`; `initial_is_file` tells
    /// whether that path is a file, in which case the dialog shows its folder
    /// and puts its name in the file name field. A folder dialog cannot
    /// start on a file. Files whose names begin with a dot are hidden, as on
    /// Unix; where a platform has no hidden files, the caller lists them with
    /// `set_show_hidden(true)`.
    pub fn new(dialog_type: DialogType, initial_path: String, initial_is_file: bool) -> (r: Self)
        requires
            !(initial_is_file && dialog_type == DialogType::SelectFolder),
        ensures
            r@ == spec_new(dialog_type, initial_path@, initial_is_file),
    {
        let mut path = initial_path;
        let mut filename_edit = String::new();
        if initial_is_file {
            filename_edit = get_file_name(path.as_str(), false);
            match std_parent(path.as_str()) {
                Some(p) => {
                    path = p;
                },
                None => {},
            }
        }
        let path_edit = path.clone();
        let empty: Vec<String> = Vec::new();
        assert(strings_view(empty@) =~= Seq::<Seq<char>>::empty());
        FileDialog {
            path,
            path_edit,
            selected_file: None,
            filename_edit,
            files: Ok(empty),
            state: State::Closed,
            dialog_type,
            resizable: true,
            rename: true,
            new_folder: true,
            show_hidden: false,
            pending: Pending::Load,
            io_path: String::new(),
            io_from: String::new(),
        }
    }

    /// Sets the text of the file name field.
    pub fn default_filename(self, filename: String) -> (r: Self)
        ensures
            r@ == (DialogModel { filename_edit: filename@, ..self@ }),
    {
        let mut d = self;
        d.filename_edit = filename;
        d
    }

    /// Enable/disable resizing the window. Default is `true`.
    pub fn resizable(self, resizable: bool) -> (r: Self)
        ensures
            r@ == (DialogModel { resizable, ..self@ }),
    {
        let mut d = self;
        d.resizable = resizable;
        d
    }

    /// Show the Rename button. Default is `true`.
    pub fn show_rename(self, rename: bool) -> (r: Self)
        ensures
            r@ == (DialogModel { rename, ..self@ }),
    {
        let mut d = self;
        d.rename = rename;
        d
    }

    /// Show the New Folder button. Default is `true`.
    pub fn show_new_folder(self, new_folder: bool) -> (r: Self)
        ensures
            r@ == (DialogModel { new_folder, ..self@ }),
    {
        let mut d = self;
        d.new_folder = new_folder;
        d
    }

    /// Get the dialog type.
    pub fn dialog_type(&self) -> (r: DialogType)
        ensures
            r == self@.dialog_type,
    {
        self.dialog_type
    }

    /// Get the window's visibility.
    pub fn visible(&self) -> (r: bool)
        ensures
            r == (self@.state == State::Open),
    {
        self.state == State::Open
    }

    /// Opens the dialog.
    pub fn open(&mut self)
        ensures
            final(self)@ == (DialogModel { state: State::Open, ..old(self)@ }),
    {
        self.state = State::Open;
    }

    /// Resulting file path.
    pub fn path(&self) -> (r: Option<String>)
        ensures
            opt_view(r) == self@.selected_file,
    {
        clone_opt(&self.selected_file)
    }

    /// Dialog state.
    pub fn state(&self) -> (r: State)
        ensures
            r == self@.state,
    {
        self.state
    }

    /// Returns true, if the file selection was confirmed.
    pub fn selected(&self) -> (r: bool)
        ensures
            r == (self@.state == State::Selected),
    {
        self.state == State::Selected
    }

    /// Whether the window may be resized.
    pub fn is_resizable(&self) -> (r: bool)
        ensures
            r == self@.resizable,
    {
        self.resizable
    }

    /// Whether the Rename button is shown.
    pub fn shows_rename(&self) -> (r: bool)
        ensures
            r == self@.rename,
    {
        self.rename
    }

    /// Whether the New Folder button is shown.
    pub fn shows_new_folder(&self) -> (r: bool)
        ensures
            r == self@.new_folder,
    {
        self.new_folder
    }

    /// Whether hidden files are listed.
    pub fn show_hidden(&self) -> (r: bool)
        ensures
            r == self@.show_hidden,
    {
        self.show_hidden
    }

    /// Lists hidden files or not.
    pub fn set_show_hidden(&mut self, show: bool)
        ensures
            final(self)@ == (DialogModel { show_hidden: show, ..old(self)@ }),
    {
        self.show_hidden = show;
    }

    /// The folder being shown.
    pub fn folder(&self) -> (r: &str)
        ensures
            r@ == self@.path,
    {
        self.path.as_str()
    }

    /// The text of the folder field.
    pub fn path_edit(&self) -> (r: &str)
        ensures
            r@ == self@.path_edit,
    {
        self.path_edit.as_str()
    }

    /// Replaces the text of the folder field (the user edited it).
    pub fn set_path_edit(&mut self, text: String)
        ensures
            final(self)@ == (DialogModel { path_edit: text@, ..old(self)@ }),
    {
        self.path_edit = text;
    }

    /// The text of the file name field.
    pub fn filename_edit(&self) -> (r: &str)
        ensures
            r@ == self@.filename_edit,
    {
        self.filename_edit.as_str()
    }

    /// Replaces the text of the file name field (the user edited it).
    pub fn set_filename_edit(&mut self, text: String)
        ensures
            final(self)@ == (DialogModel { filename_edit: text@, ..old(self)@ }),
    {
        self.filename_edit = text;
    }

    /// The listing of the folder, or the error of its read.
    pub fn files(&self) -> (r: &Result<Vec<String>, String>)
        ensures
            listing_view(*r) == self@.files,
    {
        &self.files
    }

    /// The window title.
    pub fn title(&self) -> (r: &'static str)
        ensures
            r@ == spec_title(self@.dialog_type),
    {
        match self.dialog_type {
            DialogType::SelectFolder => "📁  Select Folder",
            DialogType::OpenFile => "📂  Open File",
            DialogType::SaveFile => "💾  Save File",
        }
    }
}

impl FileDialog {
    /// What the dialog asks of its caller now.
    pub fn current_request(&self) -> (r: Request)
        ensures
            r@ == self@.request(),
    {
        match self.pending {
            Pending::Idle => Request::Done,
            Pending::Load => Request::ReadFolder(self.path.clone()),
            Pending::ProbeSelect => Request::Probe(self.io_path.clone()),
            Pending::ProbeFolder => Request::Probe(self.io_path.clone()),
            Pending::ProbeOpen => Request::Probe(self.io_path.clone()),
            Pending::ProbeOpenSelected => Request::Probe(self.io_path.clone()),
            Pending::Listing => Request::ReadFolder(self.path.clone()),
            Pending::ListingThenProbe => Request::ReadFolder(self.path.clone()),
            Pending::CreateDir => Request::CreateDir(self.io_path.clone()),
            Pending::Rename => Request::Rename(self.io_from.clone(), self.io_path.clone()),
            Pending::Report => Request::Log(self.io_path.clone()),
        }
    }

    /// Selects `file` (`is_dir` tells whether it is a directory) and puts
    /// its name in the file name field.
    fn select(&mut self, file: Option<String>, is_dir: bool)
        ensures
            final(self)@ == old(self)@.with_selection(opt_view(file), is_dir),
    {
        self.filename_edit = match &file {
            Some(path) => get_file_name(path.as_str(), is_dir),
            None => String::new(),
        };
        self.selected_file = file;
    }

    /// Opens `self.io_path`, whose kind is `k`.
    fn open_target(&mut self, k: PathKind)
        ensures
            final(self)@ == old(self)@.open_target(k),
    {
        if k.is_dir {
            self.path = self.io_path.clone();
            self.pending = Pending::Listing;
        } else if k.is_file && self.dialog_type == DialogType::OpenFile {
            self.state = State::Selected;
            self.pending = Pending::Idle;
        } else {
            self.pending = Pending::Idle;
        }
    }

    /// Shows a new listing, the folder in the folder field, and clears the
    /// selection.
    fn refresh_with(&mut self, drives: Vec<String>, entries: Result<Vec<Entry>, String>)
        ensures
            final(self)@ == old(self)@.refreshed(spec_read_folder(drives@, entries_view(entries))),
    {
        self.files = read_folder(drives, entries);
        self.path_edit = self.path.clone();
        self.select(None, false);
    }

    /// Begins carrying out `cmd`; returns what the caller must do first.
    /// A command that is still unfinished is abandoned. A rename while the
    /// Rename button is hidden, or a new folder while the New Folder button
    /// is hidden, does nothing.
    pub fn start(&mut self, cmd: Command) -> (req: Request)
        ensures
            final(self)@ == old(self)@.start(cmd@),
            req@ == final(self)@.request(),
            cmd@ is CreateDirectory && old(self)@.new_folder && plain_name(old(self)@.filename_edit)
                ==> path_file_name(final(self)@.io_path) == Some(old(self)@.filename_edit),
    {
        match cmd {
            Command::Cancel => {
                self.state = State::Cancelled;
                self.pending = Pending::Idle;
            },
            Command::CreateDirectory if !self.new_folder => {
                self.pending = Pending::Idle;
            },
            Command::Rename(_, _) if !self.rename => {
                self.pending = Pending::Idle;
            },
            Command::CreateDirectory => {
                let target = if self.filename_edit.as_str().is_empty() {
                    std_join(self.path.as_str(), "New folder")
                } else {
                    std_join(self.path.as_str(), self.filename_edit.as_str())
                };
                self.io_path = target;
                self.pending = Pending::CreateDir;
            },
            Command::Folder => {
                match &self.selected_file {
                    Some(f) => {
                        self.io_path = f.clone();
                        self.pending = Pending::ProbeFolder;
                    },
                    None => {
                        self.selected_file = Some(self.path.clone());
                        self.state = State::Selected;
                        self.pending = Pending::Idle;
                    },
                }
            },
            Command::Open(p) => {
                self.io_path = p;
                self.pending = Pending::ProbeOpen;
            },
            Command::OpenSelected => {
                match &self.selected_file {
                    Some(f) => {
                        self.io_path = f.clone();
                        self.pending = Pending::ProbeOpenSelected;
                    },
                    None => {
                        self.pending = Pending::Idle;
                    },
                }
            },
            Command::Refresh => {
                self.pending = Pending::Listing;
            },
            Command::Rename(from, to) => {
                self.io_from = from;
                self.io_path = to;
                self.pending = Pending::Rename;
            },
            Command::Save(f) => {
                self.selected_file = Some(f);
                self.state = State::Selected;
                self.pending = Pending::Idle;
            },
            Command::Select(p) => {
                self.io_path = p;
                self.pending = Pending::ProbeSelect;
            },
            Command::UpDirectory => {
                match std_parent(self.path.as_str()) {
                    Some(p) => {
                        self.path = p;
                        self.pending = Pending::Listing;
                    },
                    None => {
                        self.pending = Pending::Idle;
                    },
                }
            },
        }
        self.current_request()
    }

    /// Continues the command with the caller's reply to the last request;
    /// returns what the caller must do next.
    pub fn resume(&mut self, reply: Reply) -> (req: Request)
        ensures
            final(self)@ == old(self)@.resume(reply@),
            req@ == final(self)@.request(),
    {
        match reply {
            Reply::Kind(k) => {
                match self.pending {
                    Pending::ProbeSelect => {
                        let target = self.io_path.clone();
                        self.select(Some(target), k.is_dir);
                        self.pending = Pending::Idle;
                    },
                    Pending::ProbeFolder => {
                        let folder = if k.is_dir {
                            self.io_path.clone()
                        } else {
                            self.path.clone()
                        };
                        self.selected_file = Some(folder);
                        self.state = State::Selected;
                        self.pending = Pending::Idle;
                    },
                    Pending::ProbeOpen => {
                        let target = self.io_path.clone();
                        self.select(Some(target), k.is_dir);
                        self.open_target(k);
                    },
                    Pending::ProbeOpenSelected => {
                        self.open_target(k);
                    },
                    _ => {
                        self.pending = Pending::Idle;
                    },
                }
            },
            Reply::Listing(drives, entries) => {
                match self.pending {
                    Pending::Load => {
                        self.files = read_folder(drives, entries);
                        self.pending = Pending::Idle;
                    },
                    Pending::Listing => {
                        self.refresh_with(drives, entries);
                        self.pending = Pending::Idle;
                    },
                    Pending::ListingThenProbe => {
                        self.refresh_with(drives, entries);
                        self.pending = Pending::ProbeSelect;
                    },
                    _ => {
                        self.pending = Pending::Idle;
                    },
                }
            },
            Reply::Outcome(Ok(())) => {
                match self.pending {
                    Pending::CreateDir => {
                        self.pending = Pending::ListingThenProbe;
                    },
                    Pending::Rename => {
                        self.pending = Pending::ListingThenProbe;
                    },
                    _ => {
                        self.pending = Pending::Idle;
                    },
                }
            },
            Reply::Outcome(Err(e)) => {
                match self.pending {
                    Pending::CreateDir => {
                        let mut line = String::from_str("Error while creating directory: ");
                        line.append(e.as_str());
                        self.io_path = line;
                        self.pending = Pending::Report;
                    },
                    Pending::Rename => {
                        let mut line = String::from_str("Error while renaming: ");
                        line.append(e.as_str());
                        self.io_path = line;
                        self.pending = Pending::Report;
                    },
                    _ => {
                        self.pending = Pending::Idle;
                    },
                }
            },
            Reply::Ack => {
                self.pending = Pending::Idle;
            },
        }
        self.current_request()
    }

    /// Begins a frame: an open dialog is cancelled by Escape, a dialog that
    /// is not open is closed. Returns whether the window is to be drawn.
    pub fn begin_show(&mut self, escape_pressed: bool) -> (draw: bool)
        ensures
            draw == (old(self)@.state == State::Open),
            final(self)@ == old(self)@.begin_frame(escape_pressed),
    {
        if self.state == State::Open {
            if escape_pressed {
                self.state = State::Cancelled;
            }
            true
        } else {
            self.state = State::Closed;
            false
        }
    }

    /// Ends a frame in which the window was drawn: a window the user closed
    /// closes the dialog.
    pub fn end_show(&mut self, window_open: bool)
        ensures
            final(self)@ == old(self)@.end_frame(window_open),
    {
        if !window_open {
            self.state = State::Closed;
        }
    }

    /// Whether the Save button is enabled.
    pub fn can_save(&self) -> (r: bool)
        ensures
            r == self@.can_save(),
    {
        self.selected_file.is_some() || !self.filename_edit.as_str().is_empty()
    }

    /// Whether the Open button of an "open file" dialog is enabled.
    pub fn can_open(&self) -> (r: bool)
        ensures
            r == self@.can_open(),
    {
        self.selected_file.is_some()
    }

    /// Whether the Rename button is enabled; `selected_is_dir` tells whether
    /// the selected path is a directory.
    pub fn can_rename(&self, selected_is_dir: bool) -> (r: bool)
        ensures
            r == self@.can_rename(selected_is_dir),
    {
        if !self.filename_edit.as_str().is_empty() {
            if let Some(file) = &self.selected_file {
                let name = get_file_name(file.as_str(), selected_is_dir);
                return name != self.filename_edit;
            }
        }
        false
    }

    /// Whether the Parent Folder button is enabled.
    pub fn can_go_up(&self) -> (r: bool)
        ensures
            r == (path_parent(self@.path) is Some),
    {
        std_parent(self.path.as_str()).is_some()
    }

    /// The command given when the folder field loses focus.
    pub fn path_edit_command(&self) -> (r: Command)
        ensures
            r@ == CommandModel::Open(self@.path_edit),
    {
        Command::Open(self.path_edit.clone())
    }

    /// The path named by the file name field in the current folder.
    pub fn filename_target(&self) -> (r: String)
        ensures
            r@ == self@.filename_target(),
            plain_name(self@.filename_edit) ==> path_file_name(r@) == Some(self@.filename_edit),
            plain_name(self@.filename_edit) ==> spec_file_name(r@, false) == self@.filename_edit,
    {
        std_join(self.path.as_str(), self.filename_edit.as_str())
    }

    /// The command of Enter in the file name field; `exists` and `is_dir`
    /// tell what [`FileDialog::filename_target`] is.
    pub fn filename_enter_command(&self, exists: bool, is_dir: bool) -> (r: Option<Command>)
        ensures
            match r {
                Some(c) => self@.enter_command(exists, is_dir) == Some(c@),
                None => self@.enter_command(exists, is_dir) is None,
            },
    {
        if self.filename_edit.as_str().is_empty() {
            return None;
        }
        match self.dialog_type {
            DialogType::SelectFolder => Some(Command::Folder),
            DialogType::OpenFile => {
                if exists {
                    Some(Command::Open(self.filename_target()))
                } else {
                    None
                }
            },
            DialogType::SaveFile => {
                if is_dir {
                    Some(Command::Open(self.filename_target()))
                } else {
                    Some(Command::Save(self.filename_target()))
                }
            },
        }
    }

    /// The command of the Rename button, when the button is shown and
    /// enabled: the selected path renamed to the typed name in the same
    /// folder. `selected_is_dir` tells whether the selected path is a
    /// directory.
    pub fn rename_command(&self, selected_is_dir: bool) -> (r: Option<Command>)
        ensures
            match self@.selected_file {
                Some(from) => if self@.rename && self@.can_rename(selected_is_dir) {
                    r matches Some(c) && c@ == CommandModel::Rename(
                        from,
                        path_with_file_name(from, self@.filename_edit),
                    )
                } else {
                    r is None
                },
                None => r is None,
            },
    {
        if !self.rename || !self.can_rename(selected_is_dir) {
            return None;
        }
        match &self.selected_file {
            Some(from) => {
                let to = std_with_file_name(from.as_str(), self.filename_edit.as_str());
                Some(Command::Rename(from.clone(), to))
            },
            None => None,
        }
    }

    /// The confirm button; `selected_is_dir` tells whether the selected path
    /// is a directory.
    pub fn primary_action(&self, selected_is_dir: bool) -> (r: PrimaryAction)
        ensures
            match self@.dialog_type {
                DialogType::SelectFolder => !r.save && r.enabled && r.command@ == CommandModel::Folder,
                DialogType::OpenFile => !r.save && r.enabled == self@.can_open() && r.command@
                    == CommandModel::OpenSelected,
                DialogType::SaveFile => if self@.selected_file is Some && selected_is_dir {
                    !r.save && r.enabled && r.command@ == CommandModel::OpenSelected
                } else {
                    r.save && r.enabled == self@.can_save() && r.command@ == CommandModel::Save(
                        self@.filename_target(),
                    )
                },
            },
    {
        match self.dialog_type {
            DialogType::SelectFolder => PrimaryAction { save: false, enabled: true, command: Command::Folder },
            DialogType::OpenFile => PrimaryAction {
                save: false,
                enabled: self.can_open(),
                command: Command::OpenSelected,
            },
            DialogType::SaveFile => {
                if self.selected_file.is_some() && selected_is_dir {
                    PrimaryAction { save: false, enabled: true, command: Command::OpenSelected }
                } else {
                    PrimaryAction {
                        save: true,
                        enabled: self.can_save(),
                        command: Command::Save(self.filename_target()),
                    }
                }
            },
        }
    }

    /// Whether the filter must be asked about a listing row: only about
    /// regular files.
    pub fn wants_filter(&self, is_dir: bool, is_file: bool) -> (r: bool)
        ensures
            r == (!is_dir && is_file),
    {
        !is_dir && is_file
    }

    /// Whether a listing row is shown; `verdict` is the filter's verdict on
    /// the path when [`FileDialog::wants_filter`] holds and a filter is set,
    /// else `None`.
    pub fn entry_shown(&self, path: &str, is_dir: bool, is_file: bool, verdict: Option<bool>) -> (r:
        bool)
        ensures
            r == self@.entry_shown(path@, is_dir, is_file, verdict),
    {
        if !is_dir {
            if !is_file {
                return false;
            }
            match verdict {
                Some(v) => {
                    if !v {
                        return false;
                    }
                },
                None => {
                    if self.dialog_type == DialogType::SelectFolder {
                        return false;
                    }
                },
            }
        }
        let name = get_file_name(path, is_dir);
        if !self.show_hidden && name.as_str().unicode_len() > 0 && name.as_str().get_char(0) == '.' {
            return false;
        }
        true
    }

    /// The label of a listing row.
    pub fn entry_label(&self, path: &str, is_dir: bool) -> (r: String)
        ensures
            r@ == spec_entry_label(path@, is_dir),
    {
        let mut label = if is_dir {
            String::from_str("🗀 ")
        } else {
            String::from_str("🗋 ")
        };
        let name = get_file_name(path, is_dir);
        label.append(name.as_str());
        label
    }

    /// Whether a listing row is the selected path.
    pub fn is_selected(&self, path: &str) -> (r: bool)
        ensures
            r == match self@.selected_file {
                Some(f) => path_eq(path@, f),
                None => false,
            },
    {
        match &self.selected_file {
            Some(f) => std_path_eq(path, f.as_str()),
            None => false,
        }
    }

    /// The command of a double click on a listing row.
    pub fn double_click_command(&self, path: &str, is_dir: bool) -> (r: Command)
        ensures
            r@ == self@.double_click_command(path@, is_dir),
    {
        if self.dialog_type == DialogType::SaveFile {
            if is_dir {
                Command::OpenSelected
            } else {
                Command::Save(path.to_string())
            }
        } else {
            Command::Open(path.to_string())
        }
    }
}

} // verus!
