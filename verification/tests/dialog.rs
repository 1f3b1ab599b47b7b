use file_dialog::dialog::{Command, DialogType, FileDialog, PathKind, Reply, Request, State};
use file_dialog::listing::Entry;

const DIR: PathKind = PathKind { is_dir: true, is_file: false };
const FILE: PathKind = PathKind { is_dir: false, is_file: true };
const MISSING: PathKind = PathKind { is_dir: false, is_file: false };

fn listing(entries: &[(&str, bool)]) -> Reply {
    Reply::Listing(
        Vec::new(),
        Ok(entries.iter().map(|(p, d)| Entry { path: p.to_string(), is_dir: *d }).collect()),
    )
}

/// A dialog on the folder `/home/u` whose listing has been read.
fn loaded(t: DialogType) -> FileDialog {
    let mut d = FileDialog::new(t, "/home/u".to_string(), false);
    let r = d.resume(listing(&[("/home/u/b.txt", false), ("/home/u/docs", true)]));
    assert!(matches!(r, Request::Done));
    d
}

fn is_done(r: &Request) -> bool {
    matches!(r, Request::Done)
}

#[test]
fn new_dialog_on_a_folder() {
    let d = FileDialog::open_file("/home/u".to_string(), false);
    assert_eq!(d.folder(), "/home/u");
    assert_eq!(d.path_edit(), "/home/u");
    assert_eq!(d.filename_edit(), "");
    assert_eq!(d.state(), State::Closed);
    assert_eq!(d.path(), None);
    assert!(d.is_resizable() && d.shows_rename() && d.shows_new_folder() && !d.show_hidden());
    assert!(matches!(d.current_request(), Request::ReadFolder(p) if p == "/home/u"));
}

#[test]
fn new_dialog_on_a_file_shows_its_folder() {
    let mut d = FileDialog::save_file("/home/u/notes.txt".to_string(), true);
    assert_eq!(d.folder(), "/home/u");
    assert_eq!(d.path_edit(), "/home/u");
    assert_eq!(d.filename_edit(), "notes.txt");
    let r = d.resume(listing(&[("/home/u/notes.txt", false)]));
    assert!(is_done(&r));
    assert_eq!(d.files(), &Ok(vec!["/home/u/notes.txt".to_string()]));
    // The first listing keeps the typed name.
    assert_eq!(d.filename_edit(), "notes.txt");
}

#[test]
fn builders_set_their_setting() {
    let d = FileDialog::select_folder("/".to_string(), false)
        .resizable(false)
        .show_rename(false)
        .show_new_folder(false)
        .default_filename("x".to_string());
    assert!(!d.is_resizable());
    assert!(!d.shows_rename());
    assert!(!d.shows_new_folder());
    assert_eq!(d.filename_edit(), "x");
    assert_eq!(d.dialog_type(), DialogType::SelectFolder);
}

#[test]
fn open_then_visible_and_frames() {
    let mut d = loaded(DialogType::OpenFile);
    assert!(!d.visible());
    d.open();
    assert!(d.visible());
    assert!(d.begin_show(false));
    d.end_show(true);
    assert_eq!(d.state(), State::Open);
    assert!(d.begin_show(true));
    assert_eq!(d.state(), State::Cancelled);
    d.end_show(true);
    assert!(!d.begin_show(false));
    assert_eq!(d.state(), State::Closed);
}

#[test]
fn closing_the_window_closes_the_dialog() {
    let mut d = loaded(DialogType::OpenFile);
    d.open();
    assert!(d.begin_show(false));
    d.end_show(false);
    assert_eq!(d.state(), State::Closed);
    assert!(!d.visible());
}

#[test]
fn cancel_cancels() {
    let mut d = loaded(DialogType::OpenFile);
    d.open();
    assert!(is_done(&d.start(Command::Cancel)));
    assert_eq!(d.state(), State::Cancelled);
    assert!(!d.selected());
}

#[test]
fn save_confirms_the_path() {
    let mut d = loaded(DialogType::SaveFile);
    assert!(is_done(&d.start(Command::Save("/home/u/out.txt".to_string()))));
    assert!(d.selected());
    assert_eq!(d.path(), Some("/home/u/out.txt".to_string()));
}

#[test]
fn select_probes_then_selects() {
    let mut d = loaded(DialogType::OpenFile);
    let r = d.start(Command::Select("/home/u/b.txt".to_string()));
    assert!(matches!(r, Request::Probe(ref p) if p == "/home/u/b.txt"));
    assert!(is_done(&d.resume(Reply::Kind(FILE))));
    assert_eq!(d.path(), Some("/home/u/b.txt".to_string()));
    assert_eq!(d.filename_edit(), "b.txt");
    assert!(!d.selected());
}

#[test]
fn open_folder_enters_it() {
    let mut d = loaded(DialogType::OpenFile);
    d.start(Command::Open("/home/u/docs".to_string()));
    let r = d.resume(Reply::Kind(DIR));
    assert!(matches!(r, Request::ReadFolder(ref p) if p == "/home/u/docs"));
    assert_eq!(d.folder(), "/home/u/docs");
    assert!(is_done(&d.resume(listing(&[("/home/u/docs/a", false)]))));
    assert_eq!(d.path_edit(), "/home/u/docs");
    assert_eq!(d.path(), None);
    assert_eq!(d.filename_edit(), "");
    assert_eq!(d.files(), &Ok(vec!["/home/u/docs/a".to_string()]));
}

#[test]
fn open_file_confirms_in_open_dialog_only() {
    let mut d = loaded(DialogType::OpenFile);
    d.start(Command::Open("/home/u/b.txt".to_string()));
    assert!(is_done(&d.resume(Reply::Kind(FILE))));
    assert!(d.selected());
    assert_eq!(d.path(), Some("/home/u/b.txt".to_string()));

    let mut s = loaded(DialogType::SaveFile);
    s.start(Command::Open("/home/u/b.txt".to_string()));
    assert!(is_done(&s.resume(Reply::Kind(FILE))));
    assert!(!s.selected());
    assert_eq!(s.path(), Some("/home/u/b.txt".to_string()));
}

#[test]
fn open_missing_path_only_selects() {
    let mut d = loaded(DialogType::OpenFile);
    d.start(Command::Open("/nowhere".to_string()));
    assert!(is_done(&d.resume(Reply::Kind(MISSING))));
    assert!(!d.selected());
    assert_eq!(d.folder(), "/home/u");
    assert_eq!(d.path(), Some("/nowhere".to_string()));
}

#[test]
fn open_selected_without_selection_does_nothing() {
    let mut d = loaded(DialogType::OpenFile);
    assert!(is_done(&d.start(Command::OpenSelected)));
    assert_eq!(d.folder(), "/home/u");
}

#[test]
fn open_selected_folder_enters_it() {
    let mut d = loaded(DialogType::SaveFile);
    d.start(Command::Select("/home/u/docs".to_string()));
    d.resume(Reply::Kind(DIR));
    let r = d.start(Command::OpenSelected);
    assert!(matches!(r, Request::Probe(ref p) if p == "/home/u/docs"));
    let r = d.resume(Reply::Kind(DIR));
    assert!(matches!(r, Request::ReadFolder(ref p) if p == "/home/u/docs"));
}

#[test]
fn folder_command_picks_selected_folder_or_current() {
    let mut d = loaded(DialogType::SelectFolder);
    assert!(is_done(&d.start(Command::Folder)));
    assert!(d.selected());
    assert_eq!(d.path(), Some("/home/u".to_string()));

    let mut d = loaded(DialogType::SelectFolder);
    d.start(Command::Select("/home/u/docs".to_string()));
    d.resume(Reply::Kind(DIR));
    assert!(matches!(d.start(Command::Folder), Request::Probe(_)));
    assert!(is_done(&d.resume(Reply::Kind(DIR))));
    assert_eq!(d.path(), Some("/home/u/docs".to_string()));

    let mut d = loaded(DialogType::SelectFolder);
    d.start(Command::Select("/home/u/b.txt".to_string()));
    d.resume(Reply::Kind(FILE));
    d.start(Command::Folder);
    assert!(is_done(&d.resume(Reply::Kind(FILE))));
    assert_eq!(d.path(), Some("/home/u".to_string()));
    assert!(d.selected());
}

#[test]
fn refresh_rereads_and_clears_selection() {
    let mut d = loaded(DialogType::OpenFile);
    d.start(Command::Select("/home/u/b.txt".to_string()));
    d.resume(Reply::Kind(FILE));
    d.set_path_edit("/typed".to_string());
    let r = d.start(Command::Refresh);
    assert!(matches!(r, Request::ReadFolder(ref p) if p == "/home/u"));
    assert!(is_done(&d.resume(Reply::Listing(Vec::new(), Err("denied".to_string())))));
    assert_eq!(d.files(), &Err("denied".to_string()));
    assert_eq!(d.path(), None);
    assert_eq!(d.path_edit(), "/home/u");
}

#[test]
fn up_directory_goes_to_parent() {
    let mut d = loaded(DialogType::OpenFile);
    assert!(d.can_go_up());
    let r = d.start(Command::UpDirectory);
    assert!(matches!(r, Request::ReadFolder(ref p) if p == "/home"));
    assert_eq!(d.folder(), "/home");
}

#[test]
fn up_directory_at_root_does_nothing() {
    let mut d = FileDialog::open_file("/".to_string(), false);
    d.resume(listing(&[]));
    assert!(!d.can_go_up());
    assert!(is_done(&d.start(Command::UpDirectory)));
    assert_eq!(d.folder(), "/");
}

#[test]
fn create_directory_default_name_then_selects_it() {
    let mut d = loaded(DialogType::SaveFile);
    let r = d.start(Command::CreateDirectory);
    assert!(matches!(r, Request::CreateDir(ref p) if p == "/home/u/New folder"));
    let r = d.resume(Reply::Outcome(Ok(())));
    assert!(matches!(r, Request::ReadFolder(ref p) if p == "/home/u"));
    let r = d.resume(listing(&[("/home/u/New folder", true)]));
    assert!(matches!(r, Request::Probe(ref p) if p == "/home/u/New folder"));
    assert!(is_done(&d.resume(Reply::Kind(DIR))));
    assert_eq!(d.path(), Some("/home/u/New folder".to_string()));
    assert_eq!(d.filename_edit(), "New folder");
}

#[test]
fn create_directory_uses_typed_name() {
    let mut d = loaded(DialogType::SaveFile);
    d.set_filename_edit("stuff".to_string());
    let r = d.start(Command::CreateDirectory);
    assert!(matches!(r, Request::CreateDir(ref p) if p == "/home/u/stuff"));
}

#[test]
fn create_directory_failure_prints_a_line() {
    let mut d = loaded(DialogType::SaveFile);
    d.start(Command::CreateDirectory);
    let r = d.resume(Reply::Outcome(Err("File exists (os error 17)".to_string())));
    assert!(matches!(r, Request::Log(ref l) if l == "Error while creating directory: File exists (os error 17)"));
    assert!(is_done(&d.resume(Reply::Ack)));
    assert_eq!(d.folder(), "/home/u");
}

#[test]
fn rename_selects_new_name() {
    let mut d = loaded(DialogType::OpenFile);
    assert!(d.rename_command(false).is_none());
    d.start(Command::Select("/home/u/b.txt".to_string()));
    d.resume(Reply::Kind(FILE));
    // The typed name is still the selected file's own name.
    assert!(d.rename_command(false).is_none());
    d.set_filename_edit("c.txt".to_string());
    let cmd = d.rename_command(false).unwrap();
    assert!(matches!(cmd, Command::Rename(ref a, ref b) if a == "/home/u/b.txt" && b == "/home/u/c.txt"));
    let r = d.start(cmd);
    assert!(matches!(r, Request::Rename(ref a, ref b) if a == "/home/u/b.txt" && b == "/home/u/c.txt"));
    d.resume(Reply::Outcome(Ok(())));
    d.resume(listing(&[("/home/u/c.txt", false)]));
    assert!(is_done(&d.resume(Reply::Kind(FILE))));
    assert_eq!(d.path(), Some("/home/u/c.txt".to_string()));
}

#[test]
fn rename_failure_prints_a_line() {
    let mut d = loaded(DialogType::OpenFile);
    d.start(Command::Rename("/a".to_string(), "/b".to_string()));
    let r = d.resume(Reply::Outcome(Err("denied".to_string())));
    assert!(matches!(r, Request::Log(ref l) if l == "Error while renaming: denied"));
}

#[test]
fn mismatched_reply_ends_the_command() {
    let mut d = loaded(DialogType::OpenFile);
    d.start(Command::Refresh);
    assert!(is_done(&d.resume(Reply::Kind(DIR))));
    assert!(is_done(&d.current_request()));
}

#[test]
fn button_conditions() {
    let mut d = loaded(DialogType::SaveFile);
    assert!(!d.can_save());
    assert!(!d.can_open());
    assert!(!d.can_rename(false));
    d.set_filename_edit("new.txt".to_string());
    assert!(d.can_save());
    assert!(!d.can_rename(false));
    d.start(Command::Select("/home/u/b.txt".to_string()));
    d.resume(Reply::Kind(FILE));
    assert!(d.can_open());
    assert!(!d.can_rename(false));
    d.set_filename_edit("x.txt".to_string());
    assert!(d.can_rename(false));
    d.set_filename_edit(String::new());
    assert!(!d.can_rename(false));
    assert!(d.can_save());
}

#[test]
fn enter_in_file_name_field() {
    let mut d = loaded(DialogType::OpenFile);
    assert!(d.filename_enter_command(true, false).is_none());
    d.set_filename_edit("b.txt".to_string());
    assert_eq!(d.filename_target(), "/home/u/b.txt");
    assert!(matches!(d.filename_enter_command(true, false), Some(Command::Open(ref p)) if p == "/home/u/b.txt"));
    assert!(d.filename_enter_command(false, false).is_none());

    let mut s = loaded(DialogType::SaveFile);
    s.set_filename_edit("docs".to_string());
    assert!(matches!(s.filename_enter_command(true, true), Some(Command::Open(ref p)) if p == "/home/u/docs"));
    assert!(matches!(s.filename_enter_command(false, false), Some(Command::Save(ref p)) if p == "/home/u/docs"));

    let mut f = loaded(DialogType::SelectFolder);
    f.set_filename_edit("x".to_string());
    assert!(matches!(f.filename_enter_command(false, false), Some(Command::Folder)));
}

#[test]
fn primary_actions() {
    let f = loaded(DialogType::SelectFolder);
    let a = f.primary_action(false);
    assert!(!a.save && a.enabled && matches!(a.command, Command::Folder));

    let o = loaded(DialogType::OpenFile);
    let a = o.primary_action(false);
    assert!(!a.save && !a.enabled && matches!(a.command, Command::OpenSelected));

    let mut s = loaded(DialogType::SaveFile);
    s.set_filename_edit("out.txt".to_string());
    let a = s.primary_action(false);
    assert!(a.save && a.enabled && matches!(a.command, Command::Save(ref p) if p == "/home/u/out.txt"));
    s.start(Command::Select("/home/u/docs".to_string()));
    s.resume(Reply::Kind(DIR));
    let a = s.primary_action(true);
    assert!(!a.save && a.enabled && matches!(a.command, Command::OpenSelected));
}

#[test]
fn listing_rows_shown() {
    let mut d = loaded(DialogType::OpenFile);
    assert!(d.entry_shown("/home/u/docs", true, false, None));
    assert!(d.entry_shown("/home/u/b.txt", false, true, None));
    assert!(!d.entry_shown("/home/u/fifo", false, false, None));
    assert!(!d.entry_shown("/home/u/b.txt", false, true, Some(false)));
    assert!(!d.entry_shown("/home/u/.hidden", false, true, None));
    assert!(!d.entry_shown("/home/u/.git", true, false, None));
    d.set_show_hidden(true);
    assert!(d.entry_shown("/home/u/.hidden", false, true, None));

    let f = loaded(DialogType::SelectFolder);
    assert!(!f.entry_shown("/home/u/b.txt", false, true, None));
    assert!(f.entry_shown("/home/u/b.txt", false, true, Some(true)));
    assert!(f.wants_filter(false, true));
    assert!(!f.wants_filter(true, false));
}

#[test]
fn row_labels_and_selection() {
    let mut d = loaded(DialogType::OpenFile);
    assert_eq!(d.entry_label("/home/u/docs", true), "🗀 docs");
    assert_eq!(d.entry_label("/home/u/b.txt", false), "🗋 b.txt");
    assert!(!d.is_selected("/home/u/b.txt"));
    d.start(Command::Select("/home/u/docs".to_string()));
    d.resume(Reply::Kind(DIR));
    assert!(d.is_selected("/home/u/docs"));
    assert!(d.is_selected("/home/u/docs/"));
    assert!(!d.is_selected("/home/u/b.txt"));
}

#[test]
fn double_clicks() {
    let o = loaded(DialogType::OpenFile);
    assert!(matches!(o.double_click_command("/home/u/b.txt", false), Command::Open(ref p) if p == "/home/u/b.txt"));
    let s = loaded(DialogType::SaveFile);
    assert!(matches!(s.double_click_command("/home/u/docs", true), Command::OpenSelected));
    assert!(matches!(s.double_click_command("/home/u/b.txt", false), Command::Save(ref p) if p == "/home/u/b.txt"));
}

#[test]
fn titles() {
    assert_eq!(loaded(DialogType::SelectFolder).title(), "📁  Select Folder");
    assert_eq!(loaded(DialogType::OpenFile).title(), "📂  Open File");
    assert_eq!(loaded(DialogType::SaveFile).title(), "💾  Save File");
}

#[test]
fn path_edit_gives_open_command() {
    let mut d = loaded(DialogType::OpenFile);
    d.set_path_edit("/etc".to_string());
    assert!(matches!(d.path_edit_command(), Command::Open(ref p) if p == "/etc"));
}

#[test]
fn hidden_buttons_do_nothing() {
    let mut d = loaded(DialogType::SaveFile).show_rename(false).show_new_folder(false);
    d.start(Command::Select("/home/u/b.txt".to_string()));
    d.resume(Reply::Kind(FILE));
    d.set_filename_edit("c.txt".to_string());
    assert!(d.rename_command(false).is_none());
    assert!(is_done(&d.start(Command::Rename("/home/u/b.txt".to_string(), "/home/u/c.txt".to_string()))));
    assert!(is_done(&d.start(Command::CreateDirectory)));
    assert_eq!(d.path(), Some("/home/u/b.txt".to_string()));
    assert_eq!(d.folder(), "/home/u");
}

#[test]
fn joined_plain_name_is_the_file_name() {
    let mut d = loaded(DialogType::SaveFile);
    d.set_filename_edit("report.pdf".to_string());
    let target = d.filename_target();
    assert_eq!(target, "/home/u/report.pdf");
    assert_eq!(file_dialog::paths::get_file_name(&target, false), "report.pdf");
}
