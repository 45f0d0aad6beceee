# moldy

A minimal templating tool that copies a template directory, named by a key in
`~/.config/moldy/config.toml`, to a target path, with `mv`-like semantics:

- an existing directory target receives the template under the template's own name;
- any other target is created (one new level at most) and becomes the copy.

Layout:

- `src/` is the verified library (Verus): configuration lookup, the template table,
  the depth restriction, where a template and each of its entries go, what happens
  to each entry (links stay links, nothing is overwritten without a yes), the
  report of what was copied, and the text of every error.
- `app/` is the command-line program around it: argument parsing, reading and
  parsing the configuration file, walking the template and touching the disk,
  the overwrite prompt and coloured output.
- `tests/` exercises the library.
