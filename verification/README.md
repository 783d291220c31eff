# orchestration_viewer

A viewer of a shared session shows the children of an orchestrating agent task as pills.
This crate holds the decisions behind that bar, verified with Verus.

- `uuid_text`, `ids`: the text form of identifiers; reading and writing undo each other.
- `text`, `task`: tasks, and the labels under which they are shown.
- `status`: task states and the conversation statuses that stand for them.
- `history`: conversations, and which one each terminal view has active.
- `streamer`: events about children, and the panes that consume them.
- `viewer`: the model of one pane: which children it knows, and what it asks for.
- `context`: what the panes of one application share.
- `laws`: what holds over all operations of a pane.
- `clock`, `fixtures`: points in time, and stub values for tests.

Two feature flags matter to the decisions and are in `context`. Whether the bar is shown at
all is for the application to say, and nothing here reads a flag for it.

`app/` performs what the model asks for: it fetches tasks and hands them back.
