# caliptra-auth-man-gen

Generation of Caliptra authorization manifests, verified with Verus.

- `src/` is the verified library: the manifest structures and their byte
  layout (`manifest`, `image`, `layout`), the signing plans of standard
  manifests, helper-held owner keys and security-version signatures
  (`generator`), the session that asks its caller for each digest and
  signature in turn (`session`), image metadata from configuration files
  (`metadata`), key-file selection (`keyfiles`), and the encoding and
  decoding of what an external signing helper is given and returns
  (`helper`, `words`, `der`, `hexcodec`).
- `app/` reads configuration and key files, runs signing helpers, and drives
  sessions against the cryptographic back end.
- `tests/` exercises the library on concrete values.
