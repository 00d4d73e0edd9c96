# unpin

`unpin` is the verified core of a command line that manages what coding agents
may use: plugins, hooks, profiles, groups, gateways, sessions and workflows.
Everything that decides, parses, renders or keeps state is in `src/`, with its
contract, and is proved with Verus. What has to touch the machine is in `app/`.

## Layout

- `src/`: the library.
  - `text`, `text_map`, `ordering`, `json`: texts, ordered tables and JSON values.
  - `secret_store`, `keys`, `credential_bundle`, `gateway_credential`,
    `cursor_dashboard`: credentials and where they are kept.
  - `broker`, `broker_install`, `broker_protocol`, `broker_server`: the
    credential broker, its installation, its wire format and its server.
  - `approval`: what a person is asked before anything is changed, and what
    their answer allows.
  - `bridge_frame`, `bridge_request`, `bridge_session`, `bridge_stage`,
    `bridge_state`, `reviewed_plans`, `plan_request`, `group_definition`,
    `recovery`, `discovery_cache`, `workflow`: the desktop bridge, from bytes on
    a pipe to reviewed changes.
  - `agent_plugin`, `provider_roots`: packages and the roots of their providers.
  - `commands`: the steps of each command, what ends them and with which exit
    code. `commands::flow` runs the step tables.
  - `report`: what each command prints.
- `tests/`: tests that run the library.
- `app/`: argument parsing, files, sockets, processes, the terminal and the
  keychain. It performs the steps that the library decides on.

## Outside code

The library calls `serde_json`, `getrandom`, `zeroize` and a few functions of
the standard library through small functions whose contracts are believed, not
proved. Each says in its comment what it takes from the outside function.
