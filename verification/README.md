# pcb_toolkit

Parameter parsing and decision logic of a PCB design calculator toolkit, verified
with Verus.

- `src/` — the verified library:
  - `text` — trimming, ASCII lowering, prefix/suffix stripping on characters, with
    the laws that name lookups ignore ASCII case and surrounding white space;
  - `copper`, `inductor`, `spacing`, `wire_gauge` — the named choices a user types
    (copper weight, plating, etch factor, spiral shape, IPC-2221 device category,
    AWG size) and their parsers;
  - `params` — reading flag and text parameters, and cutting a typed list of
    numbers into tokens;
  - `ohms_law` — which quantity an E-I-R calculation solves for.
- `tests/` — tests of the library on concrete values.
- `app/` — the floating-point calculators (impedance, differential pairs, Ohm's
  law) and the JSON command layer of the desktop frontend. Floating point cannot
  stand in the verified library, so this part is ordinary Rust.
