# lexito

A gettext catalog editor with AI-assisted translation, as a verified library
and a thin driver around it.

`src/` is the library, verified with Verus:

- `model`, `catalog`, `po`, `po_check`, `po_text`, `validation`: catalogs
  opened from PO and POT text (through `rspolib`, after a line check that
  keeps out text its parser would panic on), their entries, statuses, statistics and
  validation warnings, edits, merges and saves, the quick statistics scan and
  the repair of reference comments.
- `project`: projects of a template and its languages.
- `settings`, `models`, `client`, `prompt`: AI providers and preferences, the
  models offered, prompts, batching, and what is made of a provider's reply.
- `desktop`, `locales`, `workspace`, `editor`: the editor's state and what
  every user action or finished task does to it (`LexitoApp::update`), with
  the work outside the library given back as a `Command`.
- `screens`: what each screen shows (entry list, entry panel, header,
  progress overlay, settings, dashboard, project list) as plain values.
- `laws`: properties that span several operations.

`app/` reads and writes files, talks to the keychain and to providers over
HTTP, shows file dialogs, feeds the results back to the editor, and prints the
screens as text.
