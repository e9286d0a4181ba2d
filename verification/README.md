# alakit

The verified core of Alakit, a desktop application framework that renders its
interface in a web view and keeps its logic in Rust.

`src/` holds everything the framework decides, with contracts proved by Verus:

- `dom`: the JavaScript each page operation sends (`RustDOM`, `Element`), and
  the escaping of text placed in template literals;
- `store`: the state store, whose values are held only as AES-256-GCM
  ciphertext and are wiped from memory when dropped;
- `engine`: the window settings, the asset a request of the `alakit://`
  protocol names and the answer to it, and what each IPC message asks for;
- `context`: the controller trait and the effects a controller gives back;
- `controllers`: the counter, vault, image editor and movie catalog
  applications;
- `raster`: images as plain values (size, colour kind, samples) and the
  `image` crate's decoding, filters, watermark overlay and JPEG encoding on
  them, with the contracts taken on trust;
- `codegen`: the key, obscuring, embedded-file provider and module
  declarations that the code generators write;
- `text`, `number`: string and decimal helpers with their meaning;
- `secure`, `codec`: the calls into `aes-gcm`, `zeroize`, `base64`,
  `serde_json`, `mime_guess` and std, with the contracts taken on trust.

`app/` is the runtime around it: the `tao` window and event loop, the `wry`
web view, the Tokio tasks, the controller registry (`inventory`), file
dialogs and file reads, the blur filter (its radius is a float), HTTP
requests, and the macro code generators.
