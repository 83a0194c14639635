# theme_selector

The decisions of a theme picker, verified with Verus: which themes it lists and
in what order, which of them it shows while the user moves through the list, and
what it leaves behind when the user confirms or dismisses it.

The library under `src/` touches no window, no settings store and no file. Each
operation takes what the host has read and gives back the effects that the host
is to carry out.

- `appearance`, `theme`, `settings`: the data, and the settings that a picked
  theme makes
- `text`, `listing`, `matching`: names, the list of themes, the matches of a query
- `delegate`, `selector`: an open picker, and the dialog around it
- `effect`, `session`: what the effects act on, and a picker in the midst of it
- `elements`, `list_separator`: what is drawn
- `laws`: what holds of the picker as a whole

`app/` binds the library to the editor: it reads the theme registry and the
settings, runs the fuzzy matcher, draws the elements and carries the effects out.
It is meant for the editor's workspace, whose crates it uses. The picker of icon
themes, `icon_theme_selector`, is not part of this project: `app/` imports it under
that name, and where it is a module beside `app/lib.rs` instead of a crate, a `mod`
item has to be added there.
