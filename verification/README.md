# layer_sharing

The verified core of a macOS demo in which a browser child process (CEF)
shares its rendered layer with a host process through `CALayerHost`.

- `src/layer_tree.rs`: a model of a Core Animation layer tree and the
  depth-first search for the first `CALayerHost`, whose context the browser
  shares.
- `src/ipc.rs`: the messages the browser sends the host.
- `src/browser.rs`: the browser process's decisions (its role, the check of
  the framework's start-up code, the message it sends once its page loaded).
- `src/host.rs`: the host processes' decisions on window events, and the
  reading of a context id from the environment.
- `src/laws.rs`: properties that span these functions.
- `app/`: the programs around the library: IPC channel, windows, and the
  AppKit/Core Animation calls (macOS only).
