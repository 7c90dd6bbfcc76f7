# opt_tweak_pc

Verified core of a small Windows tuning utility (a Tauri application that
drives PowerShell): administrator check, restore point, power plan, and the
audit, preview, cleanup and undo of non-essential start-up services and
scheduled tasks.

- `src/` is the library, verified with Verus:
  - `text`: Unicode white-space trimming and ASCII case-insensitive
    comparison, proved against their specifications;
  - `ps`: where PowerShell lives, how a finished run becomes a result, and how
    its JSON output is normalised to a list (the JSON parser itself is
    `serde_json`, behind a trusted wrapper);
  - `system`, `backup`, `performance`: the scripts and the interpretation of
    their output;
  - `startup`: the cleanup and restore scripts, the reports and the undo
    snapshot selection, with the laws that tie them together.
- `app/` is the Tauri side: commands, process runs, the snapshot file and the
  serde copies of the library types.
- `tests/` runs the library on concrete values.
