# devjournal

A terminal journal of projects, each made of subprojects that hold tasks.

- `src/` is the verified library: the selection lists everything is built from
  (`list`), tasks, subprojects and projects (`project`), the journal (`journal`),
  the key bindings and what each key does (`events`), the view of a single
  project with its own bindings and prompts (`project_view`), the file list and prompt
  decisions and rectangles (`widgets`), subproject widths (`layout`), messages
  and file names (`data`), and the encryption of journal files (`crypto`, over
  AES-256-GCM from `aes-gcm` with nonces from `rand`).
- `app/` is the terminal program: terminal set-up, the event loop, drawing with
  `tui`, the text prompt (`tui-textarea`), reading and writing files, and the
  `bincode` form of a journal.
