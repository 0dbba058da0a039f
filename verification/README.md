# mugen_runner

Runs a battle between two fighters in the game and names the winner, over HTTP
(`POST /run` with `{"blueFighter": ..., "redFighter": ...}`) or from the terminal.

- `src/` is the verified library:
  - `text`: left-to-right pattern replacement, trimming of white space and
    decimal notation, proved against
    their specifications;
  - `error`: the failures of a battle and the text that reports each;
  - `messages`: the request and answer bodies;
  - `service`: the `MugenService` trait, the launch command line, and the state
    machines that run a battle (`MatchSession`) and end the game (`Teardown`);
  - `win_reader`: finding the game's process, decoding its memory, and the poll
    loop (`WinnerWatch`) that watches both sides' win flags, with the proof that
    it always ends;
  - `handlers`, `cli`: what the terminal and web fronts answer, and which typed
    command runs what.
- `app/` is the program: the web server, the terminal loop, starting and killing
  the game, and reading the game's memory through the Windows API, each driven by
  the library's state machines.
- `tests/` runs the library on concrete values.
