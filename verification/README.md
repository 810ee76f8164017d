# laplus

The laplus server runs coding agents for the developer of a machine and lets their
windows and phones reach it. This library holds what the server decides; every
function in it carries a contract that Verus proves.

- `src/` is the library. It opens no file and no socket. Where the server has to
  act on the world and decide in turns, the library is a machine: it names the next
  action, is told what came of it, and names the next one.
- `app/` is the ordinary Rust around it: sockets, HTTP, files, commands and clocks.
- `tests/` tries the library on concrete values.

| Module | What it decides |
| --- | --- |
| `public_exposure` | hostnames, public addresses, refusals, and the verification of a public endpoint layer by layer |
| `tunnels` | dedicating, creating, forgetting and deleting a Cloudflare tunnel, and what a journal says of each |
| `server` | starting, stopping, routes and their gates, frames of a socket, background checks |
| `session` | what a session owes for each thing its agent, its developer or its channel does |
| `settings` | what a patch may change, how the file is read and written, what a client sees |
| `refs`, `review` | branches and their names, pages of a listing, what a working tree changed |
| `service` | the unit file and the steps that install, undo and remove it |
| `access`, `rpc`, `refusals` | credentials and scopes, which call a tag names and what its payload is read as, how a refusal reads |
| `remote_access`, `settling`, `qr` | where the server listens, how a turn settles, a pairing URL as a square |
| `text`, `json`, `keyed`, `web` | the values the rest is written in |

Contracts speak of a string by its characters and of a document by its value. What
comes from another crate stands behind a small function whose doc comment says what
is taken on trust of it: parsing a URL, reading and writing a JSON document, drawing
a QR code, a SHA-256 digest, and Unicode's lower case.
