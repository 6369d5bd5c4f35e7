# DSH Client core

The decision core of DSH Client, the Tauri desktop shell for DeepSeek Harness
(dsh), written and proved in Verus.

- `src/` is the verified library. The shared state of the kernel is in
  `manager.rs`. Supervision, one run of the kernel, installation and online
  update are state machines (`supervisor.rs`, `launch.rs`, `install.rs`,
  `update.rs`, with the steps of a deployment in `deploy.rs`): each takes in what
  happened and says what to do next. The rest reads the kernel's output
  (`readiness.rs`, `process.rs`), the registry's answers (`registry.rs`,
  `http.rs`) and the user's choices (`shell.rs`), and orders versions
  (`version.rs`).
- `app/` performs the actions: files, processes, HTTP, the window and the tray.
- `tests/` runs the library.
- `extras/with_kernel_version.sh` runs a build with the version of the bundled
  kernel compiled in. A release is not built without it; a development build,
  which does not start the kernel, takes that version to be `unknown`.

What is taken on trust is marked where it stands: `std::str::from_utf8` in
`process.rs`, the text of a status code in `http.rs`, and the JSON parser in
`registry.rs`.
