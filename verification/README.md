# Huck's Voice to Text — verified core

Speak, and your words land in the text box you were typing in. This crate holds the rules of
the dictation utility, each stated as a contract and proved with Verus: the session state
machine, the transcript and its provenance, the completion sequence that never loses the words,
settings and shortcut descriptions, tidying recogniser output, pinning the destination at the
keypress, the liveness and read-back rules of every destination, the update checks, clipboard
borrowing, recovery-draft naming and pruning, the menu, and the shortcut prompt.

Layout:

- `src/` — the verified library (`hvtt`). Each module's header says what it decides.
- `tests/` — tests of the library, run against the compiled crate.
- `app/` — the program around the library: files, sockets, the network, floating-point audio,
  and the desktop loop behind a window-toolkit interface.
