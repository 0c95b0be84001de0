# hush

The decision logic of the hush prompt dialogs, proved with Verus: the
pinentry front end, the standalone PIN dialog, the keyring prompter's dialog
and the polkit conversation window.

- `src/` is the verified library:
  - `text` — white space, trimming, line splitting, separator search and
    UTF-8 lengths over the character view of strings;
  - `info` — how a description is laid out as plain and labelled lines;
  - `labels` — keyboard hints and the repeat-field wording;
  - `frontend` — pinentry settings to dialog configuration, the dialog's
    steps, and the pinentry answers;
  - `dialog` — the standalone PIN dialog's steps and keys;
  - `ui` — the keyring prompter dialog: fields, focus cycling, submission,
    quality bands;
  - `fade` — the fade-in clock;
  - `conversation` — the polkit conversation state;
  - `prompt` — keyring prompt requests and the cancellation flag.
- `app/` draws the dialogs (iced and gpui), runs their event loops, keeps
  typed secrets in zeroizing memory, speaks JSON and the pinentry protocol,
  and hardens the process.
- `tests/` exercise the library on concrete inputs.
