# infbot

The decision logic of INFBOT, a Discord bot whose main feature is *auto voice
channels*: a member who joins an installation channel gets a voice channel of
their own, with a control panel, and that channel goes away once it is empty.

- `src/` is the library, written in Verus: every function states what it
  returns in `requires`/`ensures`, and Verus proves it. The laws that relate
  several functions (uninstalling undoes installing, a bitrate picked from the
  menu is the one offered, parsing reads back what rendering wrote, ...) are
  proof functions next to the code they are about.
- `app/` is the bot itself: poise commands, serenity event handlers, the SQLite
  tables and PostHog analytics. It asks the library what to do and carries it out.
- `tests/` runs the library on concrete values.
