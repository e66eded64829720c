# copilot-helix

GitHub Copilot completions in the [Helix](https://helix-editor.com) editor: an LSP
proxy between Helix and the Copilot language server. It turns Helix's
`textDocument/completion` into Copilot's `textDocument/inlineCompletion`, and the
items that come back into the `CompletionItem`s that Helix shows. Everything else
passes through.

## Layout

`src/` is the library, written in [Verus](https://github.com/verus-lang/verus): what
each function does is stated in its contract and proved.

| Module | What it holds |
|---|---|
| `json` | JSON values and their mathematical counterpart |
| `text` | trimming, lines, decimal numerals, the order of texts |
| `jsonrpc` | JSON-RPC messages, and messages as JSON |
| `framing` | `Content-Length` frames on bytes |
| `router` | which messages are forwarded, dropped or handled |
| `translator` | requests, answers and cancellations of completions |
| `proxy` | what becomes of each message in either direction |
| `initializer` | the initialization handshake |
| `auth` | the authentication status and the sign-in |
| `config` | the command that starts the language server |
| `helix` | whether Helix is configured to use this program |
| `installer`, `setup`, `cli` | installing, the guided setup, the command line |

Functions named `law_*` prove what holds across several functions: that an answer
carries the id of its request, that frames are read as they were written, that a
handshake loses no message.

`app/` is the program around the library: the streams, the subprocess, the terminal,
and the text form of JSON. `tests/` runs the library.

## Use

```
copilot-helix                guided setup
copilot-helix --stdio        run the proxy; this is what Helix starts
copilot-helix --auth         sign in
copilot-helix --install-ls   install the language server
```
