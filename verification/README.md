# hammer-sickle

Run a shell command over SSH on every host that a Foreman search matches,
or list the matching hosts.

- `src/` is the verified library: merging settings from the command line,
  the configuration file and the environment (`config`, `level`, `codes`),
  the host query address and the reading of a result page (`foreman`), the
  outcome of one SSH run (`ssh`), the per-host report and the exit status
  (`report`), and the environment login of the plain runner (`runner`).
- `app/` is the program: clap parsing, reading the TOML file, the HTTP
  request, `ssh` processes on a rayon pool, logging and the JSON report.
- `tests/` exercises the library on concrete values.

The program is built with `reqwest`'s default features off, so it has no
TLS support: the Foreman URL must be an `http://` URL.

Started under the name `hammer-sickle-plain`, the program runs the plain
front end instead: the Foreman login comes from `$FOREMAN_USER`/`$USER` and
`$FOREMAN_PASS`, and the command's output is passed through uncoloured.
