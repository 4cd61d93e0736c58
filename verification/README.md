# PcieWatch

A small tray app that alerts if the PCIe link of a GPU is degraded, by checking
the width and speed of the connection against a baseline. Windows and Nvidia
GPUs only (NVML).

- `src/`: what the app decides, verified with Verus. Levels and debounce
  (`poller`), the coordinator of tray, menu and watchdog (`ui`), both together
  (`monitor`), settings (`config`), the log (`logfile`), the tray picture
  (`icon`), the data for the shell (`win32`), and text building (`text`).
- `app/`: the program around it: threads, NVML, the tray, the registry, files.
- `tests/`: scenarios.

Proof functions named `law_*` state what holds of the monitor as a whole, such
as that a sustained loss of lanes is told the user once, and that power
management raises no false alarm.
