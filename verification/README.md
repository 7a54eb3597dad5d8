# kt-ui

The interface logic of the KitonyTerms SSH client, written in Verus. The
functions in `src/` carry `requires`/`ensures` contracts that Verus proves,
except the few `#[verifier::external_body]` wrappers around outside calls,
whose contracts are trusted (see below).

- `src/` is the verified library: session and connection views, the phone
  shell's tabs, action sheets and soft keyboard, the desktop context menu,
  SFTP paths, listings, upload batches and their progress, the external and inline editors' state machines, terminal input and
  cell styles, monitor formatting, the connection dialog, saved credentials and
  host-key decisions, font ordering, QR pairing codes and camera frames.
  Laws that span several functions are public `law_*` proof functions.
- `tests/` runs the library on concrete values.
- `app/` is the unverified glue: clipboard, installed fonts, local files,
  dropped-file scanning and floating-point layout measures.

Calls into outside crates (`qrcode`, `rqrr`, `base64`, `chrono`) and a few standard
library functions go through small `#[verifier::external_body]` wrappers whose
doc comments say what their contracts assume.
