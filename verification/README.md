# android-emulator

Control of Android emulators over gRPC, with the decisions proved in
[Verus](https://github.com/verus-lang/verus).

`src/` is the library. Its functions have contracts that Verus checks, but for
those that call other crates, whose contracts are believed (see below). A method
of a trait that others implement, `TokenProvider::token_for_aud`, promises
nothing by itself; each implementation here has a contract of its own. The
library decides, computes and formats; it opens no file, starts no process and
makes no connection. Where something has to happen outside, a function of the
library takes what has just happened and says what to do next.

| module      | what it holds                                                        |
|-------------|----------------------------------------------------------------------|
| `auth`      | token providers, the header of a request, allowlists                 |
| `jwt`       | ES256 tokens: text, minting, registration of keys                    |
| `cache`     | the tokens that are kept for reuse                                   |
| `keys`      | P-256 signing keys and key identifiers                               |
| `encoding`  | Base64 and JSON strings                                              |
| `config`    | the configuration of an emulator and the command line that it gives  |
| `spawn`     | the start of an emulator, step by step                               |
| `process`   | forwarding the output of a process, killing it                       |
| `unix`, `windows` | process groups and jobs                                        |
| `discovery` | running emulators, their descriptions, free ports                    |
| `emulator`  | what is known of an emulator, connecting to it, killing it           |
| `client`    | a connection; the waits for boot and shutdown                        |
| `sdk`       | where the SDK and its tools are, the virtual devices                 |
| `ini`, `log`, `text`, `time` | descriptions, log lines, text, spans and points of time |
| `error`     | what can go wrong, and what is said of it                            |
| `xtask`     | the command line of the project's own tasks                          |

`app/` is the crate around the library: asynchronous input and output, the ADB
server, gRPC, JSON files, and what is shared between threads, such as the tokens
of a provider. `tests/` run the library.

## What is proved

Contracts are stated over texts as sequences of characters, times as integers
and maps. Functions named `law_..` state what holds of several calls together:
that a token tells its header and claims and is reused until it is about to
expire, by a provider and by its clones, that an emulator which requires tokens is never connected to without
one, that the tasks which read the output of a process outlive it, and more.

## What is trusted

The functions marked `external_body` call other crates or the standard library,
and their contracts are believed: Base64 (`base64`), JSON strings
(`serde_json`), P-256 (`p256`), random identifiers (`uuid`), header values and
URIs (`tonic`), emulator serials (`adb_client`), the clock, `PathBuf::clone` and
lossy UTF-8 (std). The comment above each says what is
claimed of it.
