# Akagi

The decision core of Akagi, a mahjong assistant that plays a bot's moves in a
real game client, written in Verus.

- `src/` decides and is verified: which press a decision calls for and whether it
  is still wanted (`autoplay`), whether an update may be installed (`updater`),
  what an API request asks for (`web`), what is started (`cli`).
- `app/` performs: it reads the screen, presses the button, talks to the network
  and the file system, and keeps the clock. What the rest of the program provides
  comes in through the trait `Host`.
- `tests/` runs the library on concrete values.

The flows in `src/` are state machines. Each has a spec function from state and
event to state and action, an executable method that is proved to compute it, and
laws, as public proof functions, about single steps and about whole runs.
