# passivate

Passivate runs the tests ("hypotheses") of a Rust project while it is being
edited and shows their state, their details, their snapshots and code
coverage in a window.

- `src/` is the library, verified with Verus: naming of hypotheses
  (`hyp_id`, `hyp_name_strategy`, `text`), the tree of values keyed by id
  chains (`tree`, `node`, `node_view`, `entry`, `id_chain`), the settings and
  their sources (`configuration*`, `default_paths`, `layout_management`), log
  messages (`log_*`, `tx_log`), coverage (`coverage_status`,
  `compute_coverage`) and the decisions behind the views and the update of
  the application (`*_view`, `passivate_view*`, `passivate_state*`,
  `app_update`).
- `app/` is the program around it: the command line, the settings and layout
  files, the channels, the logger and the window.
- `tests/` exercises the library.
