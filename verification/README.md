# alluno-hinpud-sys

Protocol side of the Alluno Hardware Input Driver (AllunoHInpuD), verified
with Verus.

- `src/` — the verified library: the driver's control codes (`ioctl`), the
  kernel `KEYBOARD_INPUT_DATA` / `MOUSE_INPUT_DATA` records and their byte
  layout (`wire`), device handles and the requests they send (`device`),
  multi-request operations such as a key stroke (`transfer`), the test tool's
  event classification, counting and verdicts (`monitor`) and its test runs
  (`selftest`), and the flag and scan-code constants.
- `app/` — the test tool and the Windows I/O: `CreateFileA`,
  `DeviceIoControl`, `CloseHandle`, the low-level hooks and `SendInput`.
- `tests/` — tests of the library.
