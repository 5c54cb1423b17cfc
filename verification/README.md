# mimo_bridge

A client for the mimo PC channel, split into what it decides and what it does.

- `src/` is the library. It decides what to send, what to make of each reply, when
  to refresh the service token, and how a quota reply is read. Its functions are
  verified with Verus, but for a few small ones that call other crates (see below).
- `app/` runs the requests over the network, reads and writes JSON, and shares the
  session between tasks.
- `tests/` runs the library on concrete values.

| Module     | What it holds                                                       |
| ---------- | ------------------------------------------------------------------- |
| `client`   | the client: its session, its settings and its calls                 |
| `config`   | host, paths, timeouts and connection settings                       |
| `cookie`   | the shape of a cookie, which shows names and lengths but no values  |
| `error`    | the failures that the bridge decides on                             |
| `exchange` | one call as a state machine: send, refresh the token once, replay   |
| `headers`  | the headers of a request                                            |
| `models`   | the models that the channel serves                                  |
| `quota`    | the quota snapshot                                                  |
| `refresh`  | one refresh of the token as a state machine: mint, take over, save    |
| `session`  | the account session                                                 |
| `status`   | HTTP status codes                                                   |
| `text`     | decimal numbers in text                                             |

The library reads the clock through `chrono` and builds headers with the `http` types
that `reqwest` exports. These calls stand behind small functions whose contracts are
stated and not proved; each says so in its doc comment.
