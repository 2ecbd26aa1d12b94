# DeepSeek Harness desktop shell — verified decision logic

A Tauri 2 desktop shell starts the `dsh` web server (a Node.js program) as a
child process, waits for it to accept connections and then shows its web UI,
with a native menu, a tray icon, shortcut keys, theme persistence and
close-to-tray behaviour.

`src/` is a Verus library holding every decision the shell makes, with
contracts and proved laws:

| module | contents |
|---|---|
| `text` | whitespace trimming, string equality, `u16` decimal formatting and parsing (round trip proved) |
| `port` | `DSH_PORT` handling and the free-port choice |
| `launch` | the server's command line and URL, the start page's status scripts |
| `lifecycle` | state machines for waiting until the server is ready and for stopping it |
| `node` | where Node.js and the launcher are looked for, in order; choice of the nvm install with the highest version number |
| `search` | first-match search over candidates checked one at a time |
| `navigation` | the web view's navigation policy |
| `theme` | the saved theme preference (save/restore round trip proved) |
| `menu`, `bridge` | menu and tray entries, their dispatch, tray clicks, shortcut scripts |
| `state` | shared state: the running server and the close-to-tray rule |

`app/` is the Tauri runtime around it (window, menu, tray, processes,
sockets, files), which performs what the library decides. `tests/` exercise
the library on concrete values.
