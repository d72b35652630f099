# cloudiful-docling-convert

A verified library for converting documents through Docling Serve, with the
command line that drives it.

- `src/` is the library, written in Verus. Every function there carries a
  contract that Verus proves: detection of input kinds from names and media
  types, parsing of option values, validation of conversion requests, the
  multipart forms and JSON bodies sent to Docling Serve, the reading of its
  results into documents, the local conversion of plain text, the decisions
  of retrying, polling and waiting for tasks, and the rules of the command
  line and of the web service (task settings, upload names, progress).
  Properties that span several functions are stated as public proof
  functions (`lemma_*`).
- `app/` is the program: argument parsing, the environment, the file system
  and HTTP. It hands plain values to the library, does the I/O that the
  library's decisions call for, and writes the chunk response as JSON
  through serde (its type cannot carry serde's derives inside the library).
  The web service's decisions are in the library; its HTTP server and task
  runner are not part of this crate.
- `tests/` exercises the library on concrete values.

The calls into outside code that the library trusts are few and marked
`#[verifier::external_body]` or `assume_specification`; each states what it
assumes in its doc comment.
