# modsupdater

Checks Minecraft mods against the [Modrinth API](https://modrinth.com/) and
downloads their updates into `./mods_update/`, leaving the installed files alone.

The library under `src/` holds the updater's logic, written in Verus and proved
against its contracts:

| module        | what it decides                                                        |
|---------------|------------------------------------------------------------------------|
| `text`        | decimal and hex rendering, joining, padding, trimming, number parsing  |
| `digest`      | SHA-512 / SHA-1 of byte strings and of streams (through `sha2`, `sha1`) |
| `time`        | UTC instants and their rendering (through `chrono`)                    |
| `api`         | request paths and bodies, judging answers, retries, download progress  |
| `config`      | the settings kept between runs and the user agent                      |
| `scanner`     | which directory entries are mods, and mod-name lists                   |
| `updater`     | pairing mods with versions, choosing and checking downloads, reports   |
| `cli`         | the command line's messages, tables and confirmations                  |
| `gui`         | the window's state machine, tag pickers, download batches, the icon    |

`app/` is the command-line program around it: argument parsing, the HTTP client,
file access and the progress bar. It hands the library plain values and carries
out what the library decides.

`tests/` runs the library against concrete inputs, including the outside crates
it calls.
