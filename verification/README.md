# tcgui-backend

The logic of a privileged traffic-control backend (tc netem across network
namespaces), written in Verus with its behaviour stated in contracts and
proved.

## Layout

- `src/` — the verified library:
  - `tc_config`, `tc_commands`, `commands/` — netem settings, the `tc`
    command lines and qdisc commands built from them, command templates,
    and the decisions taken when installing, plugging and rolling back a
    netem qdisc, and the answers to traffic and interface control requests
    (`responses`);
  - `scenario/` — scenarios, the per-interface task that runs one (a state
    machine driven by its caller), the table of running executions, the
    answers to execution requests, the in-memory store and the loaders'
    directory handling;
  - `config/` — command-line and application settings, feature flags,
    hot-reloadable overrides and message bus session settings;
  - `bandwidth`, `diagnostics`, `container`, `netns`, `network`,
    `interfaces`, `services`, `preset_loader`, `registry` — parsing of
    `/proc/net/dev` and `ping` output, container and namespace records,
    link classification and the registry slice;
  - `text`, `lines`, `decimal`, `unicode`, `pattern`, `paths`, `clock` —
    text handling, exact decimals, and the small trusted wrappers over the
    standard library, `regex` and `dirs`.
- `tests/` — tests run against the compiled library.
- `app/` — the program around the library: command-line parsing, logging,
  reading the file system, and the loop that performs what a scenario
  runner asks for.
