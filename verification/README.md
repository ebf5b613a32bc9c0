# mutui

A terminal client for a Muserv music server. It lists, filters, sorts and tags the tracks of a
library, keeps playlists, and plays through an mpv process that it talks to over a socket.

`src/` is the library, verified with Verus:

- `text`, `parse`: numbers, trimming, splitting, searching; tags and addresses as they are typed
  and read.
- `api`: the server's data, the requests that are made of it, and what its answers mean.
- `order`, `sort`: the order of tracks under a sort key, and a stable sort.
- `json`, `mpv`, `shuffle`: what the player reports and is told, and how its queue is shuffled.
- `keys`, `lists`, `settings`, `state`: the parts of the client's state.
- `model`, `app`: for every key and every answer, the next state and what is asked of the world;
  `model` says it, `app` does it.
- `ui`, `layout`: what the screen shows, and where.
- `laws`: what holds of the client as a whole.

`app/` is the program around it: the terminal, the server, the player process, the settings file.
It performs what the library asks for and hands back what came of it. `tests/` runs the library
with the crates that it calls.
