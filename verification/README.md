# Finë

Finë shows a small window of session buttons (lock, log out, reboot, power
off) for the running Linux desktop.

- `src/` is the library, verified with Verus: keyboard navigation over the
  button grid (`nav`), the configuration and the commands of each desktop
  (`config`), the choice of stylesheet (`css`), colour themes (`theme`), the
  window's decisions (`ui`), paths (`path`) and errors (`error`).
- `app/` is the program around it: command line, files, environment
  variables, TOML parsing and the GTK window.
- `tests/` runs the library on concrete inputs.
