# kufeditor

The verified core of KufEditor, a desktop editor for the Kingdom Under Fire
games. The library holds the editor's state machines and decisions, each
function with a contract that Verus proves:

- `number_edit`, `integer_text`: keyboard editing of bounded integer fields
  and the decimal text they show and parse.
- `notices`: the notice center that arbitrates between sources of status
  messages, their pending requests and their completions.
- `settings`: where the settings file lives, the checks a settings document
  passes before it is decoded, the startup state, the pump that writes
  settings one image at a time, and the notices around a write.
- `mod_status`, `mod_actions`, `mod_requests`, `mod_flow`: the Mods pane,
  its scans, prompts, confirmations, the one operation that may run at a
  time, its progress and how it ends.
- `patch_status`, `patch_messages`: the Patches pane and its wording.
- `save_catalog_status`, `save_list`, `save_selectors`, `work_notices`: the
  save editor's name catalog, list cursor, labels and selectors, and the
  notices of background work.
- `discovery_flow`: what ends a Steam discovery request, and what follows
  the settings write it asks for.

Public proof functions named `law_*` state the properties that hold across
calls. `app/` holds the program around the library: the settings file I/O,
the environment, and the progress channel between threads.
