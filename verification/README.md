# qizhuo

The verified core of a Windows desktop organiser that gathers the desktop's
shortcuts into floating categories and puts them back when it quits.

- `src/` is the library, proved with Verus: the command protocol between a
  second instance and the running one (`command`, `handoff`, `paths`), the
  debounce that lets clicks through the transparent window (`interaction`),
  the plans and decisions for restoring the managed shortcuts (`restore`,
  `powershell`), the desktop context menu's registry values (`registry`),
  the decisions about desktop items (`desktop`), and the text helpers they
  share (`text`).
- Paths are joined with the platform's main separator, which `app/` passes
  in as `std::path::MAIN_SEPARATOR`.
- `app/` is the Tauri program around it: the window, the tray, the file
  system and process work, and the shell menu over COM.
- `tests/` runs the library on concrete values.
