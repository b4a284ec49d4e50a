# ruva

The core of the Ruva browser shell, verified with Verus.

The shell is a window around one web view. Everything it decides lives in
the `ruva` library under `src/`, with contracts that Verus proves:

- `search` — the query URL of each search engine.
- `text` — trimming, replacing and matching on characters.
- `settings` — settings, their defaults, and partial updates from the pages.
- `tab` — tabs; a tab's title is the host of its URL (`url` crate), a new
  tab's id comes from a random UUID (`uuid` crate).
- `page` — the new-tab and settings pages filled in from their templates,
  the background, toolbar and IPC bridge scripts, the AI answer box, and the
  tab labels.
- `json` — JSON framing of the tab list and of backend commands (strings are
  quoted by `serde_json`).
- `ai` — the request to the chat service and the text shown for its reply.
- `command` — the messages the pages post and the work the shell does in
  answer.
- `linux`, `windows`, `chromium` — the state of each shell and how it answers
  each message, as functions from state and message to new state and work.

`app/` holds the programs: widgets, the event loops, files, processes and
the network, which carry out the work that the library lists. The page
templates (`ntp.html`, `settings.html`, `splash.html`, `toolbar_inject.js`)
are read from a `ui/` directory beside the executable.
