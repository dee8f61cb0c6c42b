# gtasks

A command-line client for Google Tasks. The library under `src/` is verified
with Verus; `app/` holds the command line, the OAuth flow and the calls to the
Tasks service.

- `date`: calendar dates, their order, the next day, and their `YYYY-MM-DD` text.
- `due`: due filters (`today`, a date, or a range) and the half-open window of
  due timestamps they select.
- `task`: the task fields the tool edits, new tasks, updates, completion, and
  the parameters of a task listing.
- `render`: the lines printed for tasks, task lists and finished commands.
- `json`: JSON output of tasks and the OAuth client secret file.
- `config`: where the tool keeps its files.
- `text`: numerals, text comparison and splitting on `..`.
