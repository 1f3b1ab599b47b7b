# file_dialog

The decision logic of an `egui` file dialog (open a file, save a file,
select a folder) and of a level editor's collision view options, verified
with Verus.

- `src/paths.rs`: the `std::path` operations the dialog relies on, drive
  roots, and the name shown for a path.
- `src/listing.rs`: the order of a folder listing (folders first, then by
  name; a stable sort) and its proof.
- `src/dialog.rs`: the dialog's state, settings, widget decisions, and its
  commands as a conversation of requests and replies with the file system.
- `src/view_options.rs`: which collision vertex groups the side panel's
  check boxes show or hide.
- `src/laws.rs`: properties that span several operations.
- `app/`: the `egui` widgets and the file system work, around the library.

Hidden files (names that begin with a dot) are hidden by default, as on
Unix; on a platform without hidden files the caller lists them with
`set_show_hidden(true)`, as `app/` does.
