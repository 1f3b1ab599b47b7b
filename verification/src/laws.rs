//! Properties of the dialog and of the view options that span several
//! operations.

use vstd::prelude::*;
use crate::paths::{path_file_name, path_join, path_parent, spec_file_name};
use crate::listing::{
    Entry, entry_lt, chars_lt, is_sorted, spec_read_folder, drive_names_below, drive_name,
    drive_bit, sorted_listing, lemma_entry_lt_total, lemma_sorted_unique,
    lemma_sorted_listing_sorted, lemma_sorted_listing_permutation,
};
use crate::dialog::{
    starts_with_dot, CommandModel, DialogModel, DialogType, Pending, PathKind, ReplyModel, RequestModel, State,
    spec_new, create_error_line, default_folder_name,
};
use crate::view_options::{
    ViewToggles, ViewCategory, KclFlag, flag_index, spec_apply_toggles, category_of, toggle_value,
};

verus! {

/// How many more replies an unfinished command can take at most.
pub open spec fn steps_left(p: Pending) -> nat {
    match p {
        Pending::Idle => 0,
        Pending::Load => 1,
        Pending::ProbeSelect => 1,
        Pending::ProbeFolder => 1,
        Pending::Listing => 1,
        Pending::Report => 1,
        Pending::ListingThenProbe => 2,
        Pending::ProbeOpen => 2,
        Pending::ProbeOpenSelected => 2,
        Pending::CreateDir => 3,
        Pending::Rename => 3,
    }
}

/// The dialog asks for nothing exactly when no command is unfinished.
pub proof fn law_done_iff_idle(m: DialogModel)
    ensures
        (m.request() == RequestModel::Done) <==> (m.pending == Pending::Idle),
{
}

/// Every command finishes: each reply to an unfinished command brings it
/// strictly closer to its end, whatever the reply says.
pub proof fn law_commands_finish(m: DialogModel, reply: ReplyModel)
    requires
        m.pending != Pending::Idle,
    ensures
        steps_left(m.resume(reply).pending) < steps_left(m.pending),
{
}

/// A new dialog is closed, selects nothing, allows resizing, shows the
/// Rename and New Folder buttons, hides hidden files, and first asks for the
/// listing of the folder it shows.
pub proof fn law_new_defaults(t: DialogType, path: Seq<char>, is_file: bool)
    ensures
        spec_new(t, path, is_file).state == State::Closed,
        spec_new(t, path, is_file).selected_file is None,
        spec_new(t, path, is_file).resizable,
        spec_new(t, path, is_file).rename,
        spec_new(t, path, is_file).new_folder,
        !spec_new(t, path, is_file).show_hidden,
        spec_new(t, path, is_file).request() == RequestModel::ReadFolder(spec_new(t, path, is_file).path),
        !is_file ==> spec_new(t, path, is_file).path == path,
{
}

/// Opening a dialog makes it visible, and the next frame draws it; Escape
/// in that frame cancels it.
pub proof fn law_open_then_show(m: DialogModel, escape_pressed: bool)
    ensures
        ({
            let opened = DialogModel { state: State::Open, ..m };
            &&& opened.state == State::Open
            &&& opened.begin_frame(escape_pressed).state == if escape_pressed {
                State::Cancelled
            } else {
                State::Open
            }
        }),
{
}

/// A dialog that is not open is closed by the next frame, and stays so.
pub proof fn law_not_open_closes(m: DialogModel, escape_pressed: bool)
    requires
        m.state != State::Open,
    ensures
        m.begin_frame(escape_pressed).state == State::Closed,
        m.begin_frame(escape_pressed).begin_frame(escape_pressed).state == State::Closed,
{
}

/// Closing the window of an open dialog closes the dialog.
pub proof fn law_window_closed(m: DialogModel, escape_pressed: bool)
    requires
        m.state == State::Open,
    ensures
        m.begin_frame(escape_pressed).end_frame(false).state == State::Closed,
        m.begin_frame(false).end_frame(true).state == State::Open,
{
}

/// Saving to a path confirms it at once: the dialog is selected and its
/// path is the saved one.
pub proof fn law_save_confirms(m: DialogModel, f: Seq<char>)
    ensures
        m.start(CommandModel::Save(f)).state == State::Selected,
        m.start(CommandModel::Save(f)).selected_file == Some(f),
        m.start(CommandModel::Save(f)).request() == RequestModel::Done,
{
}

/// Cancelling cancels at once and leaves the selection as it was.
pub proof fn law_cancel(m: DialogModel)
    ensures
        m.start(CommandModel::Cancel).state == State::Cancelled,
        m.start(CommandModel::Cancel).selected_file == m.selected_file,
        m.start(CommandModel::Cancel).request() == RequestModel::Done,
{
}

/// Selecting a path probes it, then makes it the selection with its name in
/// the file name field, without confirming anything.
pub proof fn law_select(m: DialogModel, p: Seq<char>, k: PathKind)
    ensures
        m.start(CommandModel::Select(p)).request() == RequestModel::Probe(p),
        ({
            let after = m.start(CommandModel::Select(p)).resume(ReplyModel::Kind(k));
            &&& after.selected_file == Some(p)
            &&& after.filename_edit == spec_file_name(p, k.is_dir)
            &&& after.state == m.state
            &&& after.request() == RequestModel::Done
        }),
{
}

/// Refreshing reads the current folder, then shows the listing, puts the
/// folder in the folder field and clears the selection.
pub proof fn law_refresh(m: DialogModel, drives: Seq<String>, entries: Result<Seq<Entry>, Seq<char>>)
    ensures
        m.start(CommandModel::Refresh).request() == RequestModel::ReadFolder(m.path),
        ({
            let after = m.start(CommandModel::Refresh).resume(ReplyModel::Listing(drives, entries));
            &&& after.files == spec_read_folder(drives, entries)
            &&& after.path == m.path
            &&& after.path_edit == m.path
            &&& after.selected_file is None
            &&& after.filename_edit == Seq::<char>::empty()
            &&& after.request() == RequestModel::Done
        }),
{
}

/// Opening a folder enters it: it becomes the folder shown, and its listing
/// is read and shown with nothing selected.
pub proof fn law_open_folder(
    m: DialogModel,
    p: Seq<char>,
    k: PathKind,
    drives: Seq<String>,
    entries: Result<Seq<Entry>, Seq<char>>,
)
    requires
        k.is_dir,
    ensures
        ({
            let probed = m.start(CommandModel::Open(p)).resume(ReplyModel::Kind(k));
            let after = probed.resume(ReplyModel::Listing(drives, entries));
            &&& probed.path == p
            &&& probed.request() == RequestModel::ReadFolder(p)
            &&& after.path == p
            &&& after.path_edit == p
            &&& after.files == spec_read_folder(drives, entries)
            &&& after.selected_file is None
            &&& after.state == m.state
            &&& after.request() == RequestModel::Done
        }),
{
}

/// In an "open file" dialog, opening a file confirms it as the result.
pub proof fn law_open_file_confirms(m: DialogModel, p: Seq<char>, k: PathKind)
    requires
        m.dialog_type == DialogType::OpenFile,
        !k.is_dir,
        k.is_file,
    ensures
        ({
            let after = m.start(CommandModel::Open(p)).resume(ReplyModel::Kind(k));
            &&& after.state == State::Selected
            &&& after.selected_file == Some(p)
            &&& after.request() == RequestModel::Done
        }),
{
}

/// A folder that was created is shown selected in the refreshed listing;
/// it is named by the file name field, or "New folder" when that is empty.
pub proof fn law_create_folder(
    m: DialogModel,
    drives: Seq<String>,
    entries: Result<Seq<Entry>, Seq<char>>,
    k: PathKind,
)
    requires
        m.new_folder,
    ensures
        ({
            let target = path_join(
                m.path,
                if m.filename_edit.len() == 0 { default_folder_name() } else { m.filename_edit },
            );
            let s1 = m.start(CommandModel::CreateDirectory);
            let s2 = s1.resume(ReplyModel::Outcome(Ok(())));
            let s3 = s2.resume(ReplyModel::Listing(drives, entries));
            let s4 = s3.resume(ReplyModel::Kind(k));
            &&& s1.request() == RequestModel::CreateDir(target)
            &&& s2.request() == RequestModel::ReadFolder(m.path)
            &&& s3.request() == RequestModel::Probe(target)
            &&& s3.files == spec_read_folder(drives, entries)
            &&& s4.selected_file == Some(target)
            &&& s4.filename_edit == spec_file_name(target, k.is_dir)
            &&& s4.request() == RequestModel::Done
        }),
{
}

/// A folder that could not be created leaves the dialog as it was, apart
/// from the line it prints.
pub proof fn law_create_folder_fails(m: DialogModel, err: Seq<char>)
    requires
        m.new_folder,
    ensures
        ({
            let s2 = m.start(CommandModel::CreateDirectory).resume(ReplyModel::Outcome(Err(err)));
            let s3 = s2.resume(ReplyModel::Ack);
            &&& s2.request() == RequestModel::Log(create_error_line(err))
            &&& s3.request() == RequestModel::Done
            &&& s3.selected_file == m.selected_file
            &&& s3.files == m.files
            &&& s3.path == m.path
            &&& s3.state == m.state
        }),
{
}

/// A renamed path is selected under its new name in the refreshed listing.
pub proof fn law_rename(
    m: DialogModel,
    from: Seq<char>,
    to: Seq<char>,
    drives: Seq<String>,
    entries: Result<Seq<Entry>, Seq<char>>,
    k: PathKind,
)
    requires
        m.rename,
    ensures
        ({
            let s1 = m.start(CommandModel::Rename(from, to));
            let s4 = s1.resume(ReplyModel::Outcome(Ok(()))).resume(
                ReplyModel::Listing(drives, entries),
            ).resume(ReplyModel::Kind(k));
            &&& s1.request() == RequestModel::Rename(from, to)
            &&& s4.selected_file == Some(to)
            &&& s4.files == spec_read_folder(drives, entries)
            &&& s4.request() == RequestModel::Done
        }),
{
}

/// While the Rename button is hidden no rename happens, and while the New
/// Folder button is hidden no folder is created: those commands end at once
/// and change nothing else.
pub proof fn law_hidden_buttons_inert(m: DialogModel, from: Seq<char>, to: Seq<char>)
    ensures
        !m.rename ==> m.start(CommandModel::Rename(from, to)) == (DialogModel {
            pending: Pending::Idle,
            ..m
        }),
        !m.rename ==> m.start(CommandModel::Rename(from, to)).request() == RequestModel::Done,
        !m.new_folder ==> m.start(CommandModel::CreateDirectory) == (DialogModel {
            pending: Pending::Idle,
            ..m
        }),
        !m.new_folder ==> m.start(CommandModel::CreateDirectory).request() == RequestModel::Done,
{
}

/// Hidden files (names that begin with a dot) are listed only when asked.
pub proof fn law_hidden_files(
    m: DialogModel,
    path: Seq<char>,
    is_dir: bool,
    is_file: bool,
    verdict: Option<bool>,
)
    requires
        !m.show_hidden,
        spec_file_name(path, is_dir).len() > 0,
        spec_file_name(path, is_dir)[0] == '.',
    ensures
        !m.entry_shown(path, is_dir, is_file, verdict),
{
}

/// Without a filter, a folder dialog lists no files; a filter that rejects
/// a file hides it in any dialog.
pub proof fn law_files_in_folder_dialog(m: DialogModel, path: Seq<char>, is_file: bool)
    ensures
        m.dialog_type == DialogType::SelectFolder ==> !m.entry_shown(path, false, is_file, None),
        !m.entry_shown(path, false, is_file, Some(false)),
        !m.entry_shown(path, false, false, None),
{
}

/// Applying the shortcut check boxes a second time with the same request
/// changes nothing.
pub proof fn law_toggles_idempotent(current: ViewToggles, requested: ViewToggles, visible: Seq<bool>)
    ensures
        spec_apply_toggles(requested, requested, spec_apply_toggles(current, requested, visible))
            == spec_apply_toggles(current, requested, visible),
{
    let once = spec_apply_toggles(current, requested, visible);
    assert(spec_apply_toggles(requested, requested, once) =~= once);
}

/// Vertex groups that no check box governs are never changed by the check
/// boxes, and unchanged check boxes change nothing.
pub proof fn law_toggles_frame(current: ViewToggles, visible: Seq<bool>, i: int)
    requires
        0 <= i < visible.len(),
    ensures
        category_of(i) is None ==> forall|r: ViewToggles|
            #[trigger] spec_apply_toggles(current, r, visible)[i] == visible[i],
        spec_apply_toggles(current, current, visible) == visible,
{
    assert(spec_apply_toggles(current, current, visible) =~= visible);
}

/// A folder's listing does not depend on the order in which its entries are
/// read: two reads that give the same entries, in any order, give the same
/// listing, as long as different entries differ in kind or in file name (as
/// the entries of one folder do).
pub proof fn law_listing_order_independent(drives: Seq<String>, s1: Seq<Entry>, s2: Seq<Entry>)
    requires
        s1.to_multiset() == s2.to_multiset(),
        forall|a: Entry, b: Entry|
            s1.contains(a) && s1.contains(b) && a != b ==> a.is_dir != b.is_dir || path_file_name(
                a.path@,
            ) != path_file_name(b.path@),
    ensures
        sorted_listing(s1) == sorted_listing(s2),
        spec_read_folder(drives, Ok(s1)) == spec_read_folder(drives, Ok(s2)),
{
    broadcast use vstd::seq_lib::to_multiset_contains;

    lemma_sorted_listing_sorted(s1);
    lemma_sorted_listing_sorted(s2);
    lemma_sorted_listing_permutation(s1);
    lemma_sorted_listing_permutation(s2);
    let t1 = sorted_listing(s1);
    assert forall|a: Entry, b: Entry| t1.contains(a) && t1.contains(b) && a != b implies entry_lt(a, b)
        || entry_lt(b, a) by {
        assert(t1.to_multiset().count(a) > 0 && t1.to_multiset().count(b) > 0);
        assert(s1.contains(a) && s1.contains(b));
        lemma_entry_lt_total(a, b);
    }
    lemma_sorted_unique(t1, sorted_listing(s2));
}

/// One operation of the dialog's public interface, as it acts on the model.
pub enum Step {
    /// `FileDialog::start`.
    Start(CommandModel),
    /// `FileDialog::resume`.
    Resume(ReplyModel),
    /// `FileDialog::begin_show`, with whether Escape was pressed.
    BeginShow(bool),
    /// `FileDialog::end_show`, with whether the window stayed open.
    EndShow(bool),
    /// `FileDialog::open`.
    Open,
    /// `FileDialog::set_path_edit`.
    SetPathEdit(Seq<char>),
    /// `FileDialog::set_filename_edit`.
    SetFilenameEdit(Seq<char>),
    /// `FileDialog::set_show_hidden`.
    SetShowHidden(bool),
    /// `FileDialog::default_filename`.
    DefaultFilename(Seq<char>),
    /// `FileDialog::resizable`.
    Resizable(bool),
    /// `FileDialog::show_rename`.
    ShowRename(bool),
    /// `FileDialog::show_new_folder`.
    ShowNewFolder(bool),
}

/// The dialog after one operation, as that operation's contract states it.
/// (The other operations only read the dialog.)
pub open spec fn step(m: DialogModel, s: Step) -> DialogModel {
    match s {
        Step::Start(c) => m.start(c),
        Step::Resume(r) => m.resume(r),
        Step::BeginShow(escape) => m.begin_frame(escape),
        Step::EndShow(open) => m.end_frame(open),
        Step::Open => DialogModel { state: State::Open, ..m },
        Step::SetPathEdit(t) => DialogModel { path_edit: t, ..m },
        Step::SetFilenameEdit(t) => DialogModel { filename_edit: t, ..m },
        Step::SetShowHidden(b) => DialogModel { show_hidden: b, ..m },
        Step::DefaultFilename(t) => DialogModel { filename_edit: t, ..m },
        Step::Resizable(b) => DialogModel { resizable: b, ..m },
        Step::ShowRename(b) => DialogModel { rename: b, ..m },
        Step::ShowNewFolder(b) => DialogModel { new_folder: b, ..m },
    }
}

/// The dialog after a sequence of operations.
pub open spec fn run(m: DialogModel, steps: Seq<Step>) -> DialogModel
    decreases steps.len(),
{
    if steps.len() == 0 {
        m
    } else {
        run(step(m, steps[0]), steps.drop_first())
    }
}

proof fn lemma_run_keeps_type(m: DialogModel, steps: Seq<Step>)
    ensures
        run(m, steps).dialog_type == m.dialog_type,
    decreases steps.len(),
{
    if steps.len() > 0 {
        lemma_run_keeps_type(step(m, steps[0]), steps.drop_first());
    }
}

/// No operation changes the dialog type: a dialog made as a folder, open
/// or save dialog stays one, whatever is done with it afterwards.
pub proof fn law_dialog_type_kept(t: DialogType, path: Seq<char>, is_file: bool, steps: Seq<Step>)
    ensures
        run(spec_new(t, path, is_file), steps).dialog_type == t,
{
    lemma_run_keeps_type(spec_new(t, path, is_file), steps);
}

/// File names are ordered lexicographically from their first character:
/// after a common prefix, the name with the smaller next character comes
/// first.
pub proof fn law_names_ordered_from_the_front(
    p: Seq<char>,
    c: char,
    d: char,
    u: Seq<char>,
    v: Seq<char>,
)
    requires
        c < d,
    ensures
        chars_lt(p + seq![c] + u, p + seq![d] + v),
        !chars_lt(p + seq![d] + v, p + seq![c] + u),
    decreases p.len(),
{
    let x = p + seq![c] + u;
    let y = p + seq![d] + v;
    if p.len() == 0 {
        assert(x[0] == c && y[0] == d);
    } else {
        assert(x[0] == p[0] && y[0] == p[0]);
        assert(x.drop_first() =~= p.drop_first() + seq![c] + u);
        assert(y.drop_first() =~= p.drop_first() + seq![d] + v);
        law_names_ordered_from_the_front(p.drop_first(), c, d, u, v);
    }
}

/// A name comes before every longer name that it begins.
pub proof fn law_prefix_name_first(x: Seq<char>, w: Seq<char>)
    requires
        w.len() > 0,
    ensures
        chars_lt(x, x + w),
        !chars_lt(x + w, x),
    decreases x.len(),
{
    if x.len() > 0 {
        assert((x + w)[0] == x[0]);
        assert((x + w).drop_first() =~= x.drop_first() + w);
        law_prefix_name_first(x.drop_first(), w);
    }
}

/// In a listing, an entry that should be shown before another is shown
/// before it: folders before other entries, and among entries of one kind
/// the smaller file name first.
pub proof fn law_listing_positions(s: Seq<Entry>, i: int, j: int)
    requires
        0 <= i < sorted_listing(s).len(),
        0 <= j < sorted_listing(s).len(),
        entry_lt(sorted_listing(s)[i], sorted_listing(s)[j]),
    ensures
        i < j,
{
    lemma_sorted_listing_sorted(s);
    let t = sorted_listing(s);
    crate::listing::lemma_entry_lt_strict(t[i], t[j], t[i]);
    if j < i {
        assert(!entry_lt(t[i], t[j]));
    }
}

/// Two files of one kind whose names differ first at a smaller character
/// are listed in that order, whatever the order of the read.
pub proof fn law_files_listed_by_name(
    s: Seq<Entry>,
    i: int,
    j: int,
    p: Seq<char>,
    c: char,
    d: char,
    u: Seq<char>,
    v: Seq<char>,
)
    requires
        0 <= i < sorted_listing(s).len(),
        0 <= j < sorted_listing(s).len(),
        sorted_listing(s)[i].is_dir == sorted_listing(s)[j].is_dir,
        path_file_name(sorted_listing(s)[i].path@) == Some(p + seq![c] + u),
        path_file_name(sorted_listing(s)[j].path@) == Some(p + seq![d] + v),
        c < d,
    ensures
        i < j,
{
    law_names_ordered_from_the_front(p, c, d, u, v);
    law_listing_positions(s, i, j);
}

/// Which rows are listed: a folder whose name does not begin with a dot
/// always; a regular file without a filter in an open or save dialog; a
/// regular file the filter accepts in any dialog; never a path that is
/// neither; a dot-name only when hidden files are shown.
pub proof fn law_rows_shown(m: DialogModel, path: Seq<char>, verdict: Option<bool>)
    ensures
        !starts_with_dot(spec_file_name(path, true)) ==> m.entry_shown(path, true, false, verdict),
        m.dialog_type != DialogType::SelectFolder && !starts_with_dot(spec_file_name(path, false))
            ==> m.entry_shown(path, false, true, None),
        !starts_with_dot(spec_file_name(path, false)) ==> m.entry_shown(path, false, true, Some(true)),
        !m.entry_shown(path, false, false, verdict),
        m.show_hidden ==> m.entry_shown(path, true, false, verdict),
        m.show_hidden && m.dialog_type != DialogType::SelectFolder ==> m.entry_shown(
            path,
            false,
            true,
            None,
        ),
{
}

/// A dialog made on a file shows the file's folder, in every kind of
/// dialog: the folder field reads it, its listing is asked for first, and
/// the file's name is in the file name field. A dialog made on anything
/// else shows the path itself.
pub proof fn law_new_on_file_shows_its_folder(t: DialogType, path: Seq<char>, p: Seq<char>)
    requires
        path_parent(path) == Some(p),
    ensures
        spec_new(t, path, true).path == p,
        spec_new(t, path, true).path_edit == p,
        spec_new(t, path, true).request() == RequestModel::ReadFolder(p),
        spec_new(t, path, true).filename_edit == spec_file_name(path, false),
        spec_new(t, path, false).path == path,
        spec_new(t, path, false).path_edit == path,
        spec_new(t, path, false).request() == RequestModel::ReadFolder(path),
        spec_new(t, path, false).filename_edit == Seq::<char>::empty(),
{
}

/// The Open button of an "open file" dialog confirms a selected regular
/// file; a selected folder is entered instead; a save dialog does not
/// confirm a file on Open.
pub proof fn law_open_selected(m: DialogModel, f: Seq<char>, k: PathKind)
    requires
        m.selected_file == Some(f),
    ensures
        m.start(CommandModel::OpenSelected).request() == RequestModel::Probe(f),
        ({
            let after = m.start(CommandModel::OpenSelected).resume(ReplyModel::Kind(k));
            &&& m.dialog_type == DialogType::OpenFile && !k.is_dir && k.is_file ==> {
                &&& after.state == State::Selected
                &&& after.selected_file == Some(f)
                &&& after.request() == RequestModel::Done
            }
            &&& k.is_dir ==> {
                &&& after.path == f
                &&& after.request() == RequestModel::ReadFolder(f)
                &&& after.state == m.state
            }
            &&& m.dialog_type != DialogType::OpenFile && !k.is_dir ==> {
                &&& after.state == m.state
                &&& after.path == m.path
                &&& after.request() == RequestModel::Done
            }
        }),
{
}

/// After the check boxes are applied, every vertex group of a box that
/// changed shows exactly as that box now says, and every other group is as
/// it was.
pub proof fn law_toggles_follow_their_box(
    current: ViewToggles,
    requested: ViewToggles,
    visible: Seq<bool>,
    i: int,
)
    requires
        0 <= i < visible.len(),
    ensures
        spec_apply_toggles(current, requested, visible).len() == visible.len(),
        forall|c: ViewCategory|
            category_of(i) == Some(c) && toggle_value(current, c) != #[trigger] toggle_value(
                requested,
                c,
            ) ==> spec_apply_toggles(current, requested, visible)[i] == toggle_value(requested, c),
        (category_of(i) is None || toggle_value(current, category_of(i)->0) == toggle_value(
            requested,
            category_of(i)->0,
        )) ==> spec_apply_toggles(current, requested, visible)[i] == visible[i],
{
}

/// Which box governs which surfaces: walls govern Wall1, Wall2 and WeakWall;
/// invisible walls govern InvisibleWall1 and InvisibleWall2; death barriers
/// govern SolidFall and FallBoundary; effects and triggers govern
/// ItemStateModifier, EffectTrigger, SoundTrigger and CannonTrigger; and each
/// box's value is its own field.
pub proof fn law_boxes_and_their_surfaces(t: ViewToggles)
    ensures
        category_of(flag_index(KclFlag::Wall1)) == Some(ViewCategory::Walls),
        category_of(flag_index(KclFlag::Wall2)) == Some(ViewCategory::Walls),
        category_of(flag_index(KclFlag::WeakWall)) == Some(ViewCategory::Walls),
        category_of(flag_index(KclFlag::InvisibleWall1)) == Some(ViewCategory::InvisibleWalls),
        category_of(flag_index(KclFlag::InvisibleWall2)) == Some(ViewCategory::InvisibleWalls),
        category_of(flag_index(KclFlag::SolidFall)) == Some(ViewCategory::DeathBarriers),
        category_of(flag_index(KclFlag::FallBoundary)) == Some(ViewCategory::DeathBarriers),
        category_of(flag_index(KclFlag::ItemStateModifier)) == Some(ViewCategory::EffectsTriggers),
        category_of(flag_index(KclFlag::EffectTrigger)) == Some(ViewCategory::EffectsTriggers),
        category_of(flag_index(KclFlag::SoundTrigger)) == Some(ViewCategory::EffectsTriggers),
        category_of(flag_index(KclFlag::CannonTrigger)) == Some(ViewCategory::EffectsTriggers),
        category_of(flag_index(KclFlag::Road1)) is None,
        toggle_value(t, ViewCategory::Walls) == t.show_walls,
        toggle_value(t, ViewCategory::InvisibleWalls) == t.show_invisible_walls,
        toggle_value(t, ViewCategory::DeathBarriers) == t.show_death_barriers,
        toggle_value(t, ViewCategory::EffectsTriggers) == t.show_effects_triggers,
{
}

/// The folder button picks the selected path when it is a folder, and the
/// current folder otherwise; either way the dialog is confirmed.
pub proof fn law_folder_command(m: DialogModel, k: PathKind)
    ensures
        m.selected_file is None ==> {
            &&& m.start(CommandModel::Folder).selected_file == Some(m.path)
            &&& m.start(CommandModel::Folder).state == State::Selected
            &&& m.start(CommandModel::Folder).request() == RequestModel::Done
        },
        m.selected_file matches Some(f) ==> {
            let after = m.start(CommandModel::Folder).resume(ReplyModel::Kind(k));
            &&& m.start(CommandModel::Folder).request() == RequestModel::Probe(f)
            &&& after.selected_file == Some(if k.is_dir { f } else { m.path })
            &&& after.state == State::Selected
            &&& after.request() == RequestModel::Done
        },
{
}

/// The parent folder button goes to the parent and reads it; at a root it
/// does nothing.
pub proof fn law_up_directory(m: DialogModel)
    ensures
        path_parent(m.path) matches Some(p) ==> {
            &&& m.start(CommandModel::UpDirectory).path == p
            &&& m.start(CommandModel::UpDirectory).request() == RequestModel::ReadFolder(p)
        },
        path_parent(m.path) is None ==> {
            &&& m.start(CommandModel::UpDirectory).path == m.path
            &&& m.start(CommandModel::UpDirectory).request() == RequestModel::Done
        },
{
}

proof fn lemma_single_bit_below(k: u32, n: nat)
    requires
        k < 32,
        n <= 32,
    ensures
        drive_names_below(1u32 << k, n) == if k < n {
            seq![drive_name(k as int)]
        } else {
            Seq::<Seq<char>>::empty()
        },
    decreases n,
{
    if n > 0 {
        let j = (n - 1) as u32;
        lemma_single_bit_below(k, (n - 1) as nat);
        assert(((1u32 << k) & (1u32 << j) != 0) == (j == k)) by (bit_vector)
            requires
                k < 32,
                j < 32,
        ;
        assert(drive_bit(1u32 << k, j) == (j == k));
    }
}

/// A drive root is the drive's letter, a colon and a backslash, with `A`
/// for bit 0 and each next bit the next letter; a mask with one bit set
/// names exactly that drive, and an empty mask none.
pub proof fn law_drive_names(k: u32)
    requires
        k < 32,
    ensures
        drive_name(k as int).len() == 3,
        drive_name(k as int)[0] as int == 65 + k,
        drive_name(k as int)[1] == ':',
        drive_name(k as int)[2] == '\\',
        drive_names_below(1u32 << k, 32) == seq![drive_name(k as int)],
        drive_names_below(0, 32) == Seq::<Seq<char>>::empty(),
{
    reveal_strlit(":\\");
    lemma_single_bit_below(k, 32);
    lemma_empty_mask(32);
}

proof fn lemma_empty_mask(n: nat)
    ensures
        drive_names_below(0, n) == Seq::<Seq<char>>::empty(),
    decreases n,
{
    if n > 0 {
        let j = (n - 1) as u32;
        lemma_empty_mask((n - 1) as nat);
        assert((0u32 & (1u32 << j)) == 0) by (bit_vector);
    }
}

} // verus!
