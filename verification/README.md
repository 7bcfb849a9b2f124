# YARD

Yet Another Rust Desktop: an RDP client for Linux. This crate holds its logic,
written in Verus, with what each function does stated and proved.

## Layout

- `src/` is the library.
  - `client` decides for the main thread: settings, prompts, exit codes, the window
    and the downloads.
  - `connection` decides for the network thread: how a connection is made, the
    certificate, the input, the monitors and the session.
  - `cliprdr`, `rdpsnd` and `audin` are the virtual channels for the clipboard, for
    sound and for the microphone.
  - `audio` is the ring buffer and the decisions of the audio thread.
  - `video` is the state of a video decoder and the frames it gives.
  - `messages`, `monitors`, `config` and `error` are what the threads share.
  - `bytes`, `text`, `utf16`, `paths` and `views` are what the others build on.
- `tests/` runs the library.
- `app/` is the program around it: arguments, files, sockets, PipeWire and FFmpeg.

## What is proved

Each public function says in its `ensures` what it returns or changes, over the
views of its arguments. Steps of the state machines are given by spec functions
from state and event to state and action. The proof functions whose names begin
with `law_` state what holds of several functions together: that a message is read
back as it was written, that a ring buffer in which nothing overflowed neither loses
nor reorders bytes, that downloaded files stay in their directory, that an answer
under the identifier of a request is taken for the file that was asked for, that no
password is written to a log, that nothing stays pressed when a session ends.

What other crates compute is taken from them behind small functions marked
`#[verifier::external_body]`, each with a comment that says what is taken for true.
