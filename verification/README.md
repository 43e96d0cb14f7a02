# crust_node

The decision logic of a Lavalink v4 compatible audio node, written and proved
in Verus, and the program around it.

- `src/` is the library. Its functions carry contracts that Verus proves, but
  for the calls into other crates and into std that they rest on. Those are
  relied on as their doc comments say: the wrappers in `outside`, `same_text`
  and `push_char` in `text`, and `quote` in `wire`. Of the values that the
  system's clock and random source give, only the range of a duration is relied
  on; what is proved is that they are the ones used. What an operation decides
  is a function from state and event to the next state and what has to be done;
  the laws that span several operations are public proof functions.
- `tests/` runs the library on concrete values, with the outside crates linked.
- `app/` is the program: the HTTP and WebSocket server, the tasks of players,
  sessions and voice connections, and the samples of the filters. It does what
  the library asks for and hands back what came of it.

## The library

| Modules | Subject |
| --- | --- |
| `config`, `environment`, `config_debug`, `config_laws` | configuration and where it comes from |
| `session`, `session_laws` | sessions, resuming, queues of messages |
| `player`, `update`, `commands`, `shard`, `update_laws` | players and the commands that run on them |
| `playback`, `playback_laws`, `source`, `media`, `encoding` | tracks, their texts, and playback of one at a time |
| `filters`, `stretch`, `ieee` | filters, the places of a stretch, floats by their bits |
| `voice`, `bridge` | voice connections and the frames that they send |
| `http`, `handlers`, `about`, `socket`, `protocol` | the interface to clients |
| `stats`, `probe` | statistics and the readings behind them |
| `json`, `wire`, `text`, `text_map`, `span` | JSON within limits, texts, ordered maps, durations |
| `outside` | what is relied on of other crates |

Floating point, sockets, files, clocks and the media and voice libraries are
outside of the proofs: their results are arguments of the library's functions.
