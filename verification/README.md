# zephyr

Verified helpers around the Zephyr device, firmware-update (MCUboot) and FAT APIs.

- `src/` is the verified library:
  - `device`: device handles and the one-shot claim that guards each devicetree instance;
  - `dfu`: bootloader-query results, the upgrade-request protocol, the running-version
    text (`major.minor.revision+build`, NUL-terminated) and the no-MCUboot slot1 writer;
  - `fs`: the FAT round trip (init, mount, write, read back, unmount) as a session that
    decides each next C call from the previous results;
  - `text`: decimal rendering and bounded C-string writes.
- `app/` makes the Zephyr C calls and drives the library's sessions.
- `tests/` exercises the library natively.
