# mirador

A terminal dashboard whose decisions are proved with Verus.

`src/` is the verified library: how rows and panels share the screen
(`layout`, `geometry`, `resize`, `rebuild`), where a key, paste or click goes
and what the status bar and help overlay show (`shell`, `panel`, `picker`),
the command line (`cli`), plugin declarations and the plugin protocol
(`config`, `plugin`), the nested terminal's key encoding and life cycle
(`terminal`), and the watch log (`watch`). Each public function states what it
returns in its `ensures`; the laws that span several calls are public proof
functions beside the code they are about: two Ctrl+C presses with nothing
selected always quit and three always do (`shell`), frames never go back
(`plugin::shared`), a transfer keeps the total (`resize`), a rebuild shuts
down exactly the panels that left (`rebuild`), and so on.

`app/` is the program around it: the event loop, drawing with ratatui, the
plugin processes and the pseudoterminal, and reading the config file. It hands
the library plain values and acts on what comes back.

`tests/` runs the library on concrete values.
