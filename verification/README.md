# devstack

A verified library that plans a local backend project for one of four stacks
(Node.js, Django, Flask, FastAPI): it turns a project name into a slug, picks the
target directory, and produces every file of the project with its exact contents.
The `devstack` command in `app/` parses the command line and writes the files.

- `src/text.rs` – words of a text, joins, ASCII case and decimal numerals, with lemmas.
- `src/project.rs` – `Stack`, `Project`, `FileEntry`, stack metadata and title case.
- `src/generator/common.rs` – slugs, validation, target directory, errors.
- `src/generator/shared.rs` – the files every project gets.
- `src/generator/stacks/` – the files of each stack.
- `src/generator/mod.rs` – the whole file list, project preparation, final message.
- `src/laws.rs` – properties that hold of every name, slug, title and project.
- `src/content_laws.rs` – properties of the shared file texts: ports, nginx variables,
  compose services, Makefile targets.
- `app/main.rs` – command line, file system and terminal.
