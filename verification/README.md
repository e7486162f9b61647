# agent_core

Core of the AIR print agent, verified with Verus. The agent receives print
jobs over MQTT and prints them on Windows printers.

- `src/` — the verified library:
  - `config.rs`: the environment name (`dev`, `test`, `prod`, `prod_*`) and
    the values derived from the configuration: MQTT topics, client id, broker
    address, update server.
  - `crypto.rs`: encryption of `config.toml` (AES-256-GCM, SHA-256 key,
    `PAGENT_ENC:` + Base64).
  - `config_loader.rs`: reading the configuration text and deciding when to
    encrypt it.
  - `messages.rs`, `mqtt.rs`: the commands and what the agent does on each
    connection event and message.
  - `updater.rs`: the update check as a state machine.
  - `impresoras.rs`: reading the printer list.
  - `texto.rs`: character-level text operations and their specifications.
- `app/` — the Windows program: MQTT connection, downloads, files, tray icon,
  notifications and Win32 printing, driven by the library's decisions.
- `tests/` — tests of the library on concrete values.
