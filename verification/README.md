# beacon_node

A Lightning node manager for a desktop wallet, built on `ldk_node`, with its
rules proved in Verus.

- `src/node.rs`: a node's configuration, the defaults that fill it in, and
  building and starting a node through `ldk_node`.
- `src/manager.rs`: the manager that runs one node per name, each built with
  the directory of its name under the base directory as storage and listening
  on the next port, and answers the interface's commands.
- `src/ui.rs`: the state of the desktop interface and how its messages change it.
- `src/text.rs`: decimal rendering, substring search and case folding.
- `src/ldk.rs`: the declarations of the `ldk_node` items used, the library's
  records of what is handed to them (builder settings, listening addresses,
  build failures), and the trusted wrappers around its functions.
- `src/laws.rs`: properties that relate several operations.
- `app/`: file-system discovery, directory creation and the Tokio actor that
  serves commands.
