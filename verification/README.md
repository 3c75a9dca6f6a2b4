# mailviewer

The window of a desktop mail viewer, split in two.

- `src/` is a Verus library that holds every decision the window takes, with
  contracts proved by Verus: which links of a message are handed to the
  system and which stay out of the message view (`navigation`), how a message
  is shown, searched and printed and what the controls then show (`window`),
  the rows and heading of the attachments list (`attachments`), what the file
  actions and dialogs lead to and how failures are reported (`files`), html
  escaping (`html`) and the string helpers they rest on (`text`).
- `app/` is the GTK / libadwaita / WebKitGTK window. It reads events and
  widget state, asks the library what to do, and does it: widgets, dialogs,
  file and network I/O, translation through gettext, and the zoom level,
  which is floating point.
- `tests/` runs the library on concrete values.
