# openvpn3-gui

A desktop front end for the `openvpn3` command-line client, whose decision
logic is a verified library.

- `src/` is the library, checked by Verus:
  - `text.rs`: the string operations the parsers use, with their models;
  - `parse.rs`: readers of `openvpn3` output (session lists, configuration
    lists, statistics, session status);
  - `model.rs`: connection status, sessions, profiles, statistics, and the
    messages and commands between the window and the manager;
  - `manager_spec.rs` and `manager.rs`: the manager as a state machine, from
    state and event to next state, messages for the window and the next
    outside action to perform;
  - `app_state.rs`: what the window shows and decides (log, error history,
    dialogs, which buttons may be used);
  - `config.rs`: the settings and their defaults;
  - `laws.rs`: properties that span several of the functions above.
- `app/` is the program around it: the `eframe` window, the loop that runs
  `openvpn3` and feeds its output back to the manager, and the settings file.
- `tests/` runs the library on concrete inputs.
