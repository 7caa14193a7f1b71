# KerBridge client

A client that turns a cloud identity into an on-premises Kerberos ticket: it discovers a
broker, proves who is signing in -- through a browser, the platform's own token store or
a device grant -- exchanges the proof for a ticket-granting ticket, and keeps that ticket
fresh for as long as the machine is meant to have access.

- `src/` is the library, written and proved in Verus. It holds every decision: what a
  reply of the broker means, how a credential cache becomes a KRB-CRED message, which
  setting wins, what the background agent does next, what each surface shows and offers.
  It performs no I/O. A request is a value that the caller sends, and a reply is a value
  that the caller hands back.
- `tests/` runs it.
- `app/` is ordinary Rust around it: the console program, HTTP, the settings file and the
  agent's loop.

| module | what it decides |
| --- | --- |
| `describe` | the condition of a machine, what is missing and what may be offered |
| `agent` | the state machine: schedule, workers, events, start-up, settings |
| `discovery`, `broker`, `http`, `address`, `json` | what goes to the broker and what its replies mean |
| `krbcred`, `der` | credential caches and their KRB-CRED encoding |
| `config`, `device`, `enroll`, `elevate` | settings, device assertions, realm enrollment, elevation |
| `windows`, `macos`, `icon`, `cli` | the surfaces |

A public function of the library says in its contract what it returns, over plain models
of its data. The theorems that relate several of them are the public `law_` functions.
What outside crates compute is believed rather than proved: each of their functions is
called behind one small function of the library, whose contract says what is claimed of
it. Of the number that the system's source of randomness gives, nothing is.

The program in `app/` has the console as its surface. What the Windows and macOS surfaces
show and do is decided in `windows` and `macos`, for the programs that draw them.
