# attention_blackhole

A desktop experiment that estimates accumulated attention load from keyboard,
mouse, window-switch and idle signals, and draws a growing black hole over the
work window; at full load it enforces a break.

- `src/` is the verified library (Verus): per-tick event counts, the
  Working / Dimming / ForcedBreak stage machine, the choice of how the load moves
  on a tick, the event totals of the signal window, idle tracking on a monotonic
  nanosecond clock, the keystroke-gap window, case-insensitive title matching,
  foreground-window switch detection and the procedural capture fallback. Each
  public function carries its contract; the `law_*` proof functions state the
  properties that span calls.
- `app/` holds what needs floating point or the operating system: the load
  arithmetic and its configuration, the signal statistics, the tick controller,
  test doubles, and (on Windows) the input hooks, the foreground-window reader
  and the Direct3D 11 overlay renderer.
- `tests/` exercises the library on concrete values.
