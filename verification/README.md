# Navop workbench

The state and the rules behind three parts of a desktop tool, without a window:

- an API client: folders and requests, the editor, environments and variables, the request
  tree, history, import and export, and what the panels show and what clicks in them do;
- the object details of a SQL editor: links to database objects, and the details that are
  remembered for the click that follows;
- the home page: opening saved connections, with their credentials or with a login that is
  typed in once.

`src/` is the library. Every function states in its contract what it returns and how it
changes the state, over models made of sequences, sets and maps; Verus proves the contracts,
and the laws that relate them (`law_...`). What the window has to do is returned as a list of
effects.

`app/` is ordinary Rust around it: texts in the user's language, files, the storage of
connections, the editor protocol. `tests/` runs the library on concrete values.
