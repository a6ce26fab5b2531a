# todomvc

The core of a TodoMVC application (an HTTP service over SQLite and a browser
interface), written in Verus with its rules stated as contracts and proved.

- `src/` is the verified library:
  - `text`: white space, trimming (as `str::trim`), decimal numerals;
  - `models`: the todo records;
  - `filter`: the All / Active / Completed views, chosen by the location hash,
    and the footer's counts;
  - `todo_list`: how the interface's list takes in each reply of the
    service (append, replace, remove, clear completed) and the footer text;
  - `editor`: one row's state machine (toggle, destroy, edit in place), what
    a row passes on after a reply, and the new-todo box;
  - `client`: the request addresses and how a reply's status is read;
  - `repo`: the record of a new todo and the statement of a partial change;
  - `routes`: which requests the service refuses and which status it replies.
- `app/` is the service program: axum handlers, the SQLite statements, serde
  forms of the records. It takes every decision above from the library.
- `tests/` runs the library on concrete values.
