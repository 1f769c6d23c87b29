# clipd

An HTTP bridge to the macOS pasteboard: a phone on the same LAN pushes text or images into
the Mac's clipboard, and reads them back.

`src/` is the library, verified with [Verus](https://github.com/verus-lang/verus). It decides
everything that can be decided without touching the network, the pasteboard or a process:

| Module | What it settles |
|---|---|
| `auth` | Where a request presents the shared secret, and when it is let through. |
| `body` | What a request body is: content types, forms, sniffing, multipart bodies. |
| `imaging` | Recognising, decoding and encoding images, and when `sips` has to help. |
| `reply` | What a request is answered, and what is told of a payload. |
| `clipboard` | What travels to and from the pasteboard. |
| `headers` | What is read of header fields and of a request target. |
| `text` | Cutting, trimming, comparing and writing text. |

`app/` is the server around it: the command line, the routes, the thread that owns the
pasteboard, and the `sips` and `osascript` processes. Work that the library cannot do by itself
is asked for in its results (`Decoding::NeedsSips`, `Reading::NeedsSips`,
`FormStep::NeedsSips`), and the outcome is handed back.

What the library has from other crates goes through functions whose contracts are taken on
trust; the doc comment above each says what it claims. They call `image` (sniffing, decoding,
encoding), `serde_urlencoded` (forms), `http` by way of `axum` (header fields, request targets)
and the standard library's text conversions.
