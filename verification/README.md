# gitswitch

A terminal tool that keeps several Git identities (name, e-mail address and
an ed25519 key pair each) in a small SQLite store and switches between them.

- `src/` is the library, verified with Verus:
  - `app.rs`: the interface's state machine. A key press or the outcome of
    outside work goes in; the new state and the next piece of outside work
    (read a key, copy to the clipboard, switch, add, remove, list) come out.
    Views of the state for drawing live here too.
  - `store.rs`: the store operations (add, remove, switch, current user) as
    step machines over actions on the store, the key files and `git`.
  - `db.rs`: account records and the text that goes to and comes from `git`
    and `ssh-keygen`.
  - `email.rs`: the e-mail address check, made with the `regex` crate.
  - `layout.rs`: the centred box of the dialogs, split with ratatui's layout
    solver.
  - `text.rs`: the std text functions the rest relies on.
  - `laws.rs`: properties that hold across steps.
- `app/` is the program around it: the terminal loop (crossterm, ratatui),
  the clipboard (arboard), and the work on SQLite, files and processes.
- `tests/` runs the library on concrete inputs.
