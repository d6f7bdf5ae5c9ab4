# minimal_clock_core

A small desktop clock that shows local time or the time of a remote IANA
timezone, asking public time services (WorldTimeAPI, TimeAPI.io,
TimezoneDB) in order of priority until one answers.

## Layout

- `src/` — the verified library (Verus):
  - `text.rs`: character-level helpers (search, trim, split, decimal
    formatting, `str::parse` for `u8` and `i32`) with their specifications;
  - `json.rs`: reading single fields of a JSON reply by text search;
  - `providers.rs`: the request each service needs and how its reply is read;
  - `config.rs`: the clock's configuration, its defaults, the timezone
    search and additions;
  - `chain.rs`: the chain of services ordered by priority, with automatic
    fallback or a selected service, as a state machine that hands out one
    request at a time;
  - `clock.rs`: the clock core, whose operations that may fetch return a
    request and are resumed with the reply;
  - `desktop.rs`: the window's configuration file contents and the line of
    text the window shows.
- `app/` — the Windows program around it: WinHTTP requests, the local clock,
  the JSON configuration file and the Win32 window.
- `tests/` — tests of the library on concrete values.

Every network exchange is left to the caller: the library returns the
request to make (`ClockStep::Fetch`, `DesktopStep::Fetch`) and is handed the
reply body or the transport error through `resume`. A switch of the clock
core that has its offset asks for one more `tick` at a fresh reading
(`ClockStep::Tick`), which ends it.
