# openvmm-ctl

A small client for the management socket of an `openvmm` process that was
launched with `--ttrpc-management <path>`. It pauses and resumes a live VM, hot
adds and removes NVMe namespaces and SCSI disks, saves snapshots, resets the
platform, and shows the device tree or a summary of the NVMe controllers.

- `src/` is the library, verified with Verus: which call a command makes, what
  it prints for each answer (`command`), the status report (`status`), lookups
  in an inspection tree (`tree`), byte counts and numbers as text (`size`,
  `text`).
- `app/` is the program: the command line, the connection, and the conversion
  between the library's types and those that go over the wire.
- `tests/` runs the library.
