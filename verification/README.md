# AE-5 Control

Control logic for the Creative Sound BlasterX AE-5 on Linux, written in Verus
so that the rules which guard the hardware are proved rather than only tested.

## Layout

- `src/` is the verified library. Every decision made before touching the
  card lives here: which ALSA mixer writes are blocked and why
  (`controls`), how a choice write and a desktop route repair are planned
  and checked, how hardware and software Effects are applied and rolled back
  (`hardware_effects`, `effects_chain`, `sound_objects`), how the device
  state is summarized for the D-Bus service (`device_state`,
  `device_service`), how the onboard LEDs are discovered, written and rolled
  back (`lighting`), and what the control window shows (`signal_path`,
  `editors`, `panels`, `profile`, `feature_parity`).
- `tests/` exercises the library on concrete values.
- `app/` is the `ae5ctl` command-line program: it reads and writes the ALSA
  mixer and the sysfs LED files and prints what the library decides.

Each public function states its result in its `ensures` clause over plain
mathematical values (`Seq<char>` for text); the laws that relate several
functions are public proof functions named `lemma_*`.

## Building

The library and its tests are built and verified with Verus. The
application needs `libasound` (`alsa-lib-devel` on Fedora).
