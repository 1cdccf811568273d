# plugin_host

The decisions of a plugin host, verified with Verus, and the program around them.

`src/` is the library. It reads and does nothing itself: it is told what is
there and what happened, and says what to do. Every function states in its
contract what it returns, and the properties that span functions are the public
proof functions whose names begin with `law_`.

- `manifest`, `fonts`, `categories`: what a plugin offers, and how its actions
  come to be listed.
- `code`, `launch`, `startup`: which code of a plugin runs, with what command or
  in what window, and the steps in which it is started.
- `instances`, `devices`, `deactivation`: the plugins that run, the devices that
  they bring, and the steps in which one is stopped.
- `initialisation`, `builtin`, `version`, `entries`: the steps in which all
  plugins are initialised, those in which the ones that come with the host are
  kept up to date, and which entries of the plugins directory are plugins.
- `ports`, `connection`: where plugins connect, and what becomes of a
  connection.
- `registry`, `text`, `platform`, `error`: what the others are built from.

A step machine (`Initialisation`, `Upgrade`, `Startup`, `Deactivation`) is driven by a loop: ask
for the next step, carry it out, report how it went.

`app/` holds those loops: files, processes, sockets and windows. What the rest of
an application has to bring is the trait `Host`, and windows are those of Tauri.

`tests/` runs the library on concrete values.
