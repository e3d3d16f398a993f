# micyou_app

The decision core of a microphone bridge: a phone's browser captures audio,
sends it over HTTPS and WebSocket, and a desktop plays it into a virtual
microphone. A dashboard on the computer itself shows the state and holds the
switches.

* `src/` is the library. Verus proves every function of it against its contract.
  - `pcm`, `telemetry`, `web_server`: audio frames, live figures, and the life
    of the microphone server and its connections.
  - `pairing`, `cookie`, `headers`, `lan`, `cert`, `tls`: who may connect, and
    under which addresses, certificate and TLS configuration.
  - `dashboard`, `control`, `dsp_patch`, `settings`, `json`, `api`: what the
    dashboard shows, changes and refuses.
  - `output`, `devices`, `config`: the output worker, device lists, and stored
    preferences.
  - `text`, `listing`: texts and name lists.
* `app/` is the program around it: files, sockets, threads, floating-point
  figures, and the traits through which the desktop supplies its audio engine,
  native transports and window.
* `tests/` runs the library with the real crates behind it.

What is believed rather than proved stands in functions marked
`#[verifier::external_body]`: each wraps what is asked of another crate or the
standard library in one place, and its comment says what is claimed of it.
