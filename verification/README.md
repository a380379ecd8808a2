# journai

The logic of JournAI, a journald log collector and analyser built as Golem
components, as a verified Verus library.

- `src/` is the library. `collector` decides which entries are kept and
  builds the statements that store and query them; `analyzer` plans the
  language-model requests, composes the prompts and reads the replies;
  `visualizer` reads the dashboard rows and renders the pages; `connection`
  turns the environment into a connection URL and the schema statements;
  `db` converts column values; `calendar` and `ieee` describe the dates and
  doubles involved; `text` and `sql` hold the text building blocks; `laws`
  states the properties that relate these functions.
- `tests/` runs the library on concrete values.
- `app/` holds the Golem agents, the database and language-model calls, and
  the serialisable forms of the library's types.
