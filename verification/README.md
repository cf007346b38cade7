# awaza

A Japanese input method for Windows with NICOLA thumb-shift input. The text
service owns the text under composition itself instead of guessing at another
input method's state.

- `src/` is the verified library. It decides; it calls no system function.
  - `keys`, `chord`: what each key is, and what the keystroke engine is asked and
    answers
  - `preedit`: how the engine's outputs edit the text under composition
  - `timers`, `clock`, `log`: timer calls, millisecond counts and log lines
  - `tip`: the service's state, and its answer to every event
  - `scene`: the document shows what the service holds, whether requests are
    granted or refused, as long as a granted session shows its text
  - `registration`, `footprint`: the calls that register the service, one by one,
    and what they leave on a system, also when one fails
  - `calls`: calls that are made one after another until one fails
  - `server`: entry points, the hidden window, activation
  - `guid`, `utf16`: identifiers and text as Windows takes them
- `app/` is the text service DLL: COM objects, windows, timers and the registry,
  around the library. It builds on Windows (its `chord` module on any system), with
  the `awase`, `awase-vkmap` and `libakaza` crates from their repositories and the
  layout file `layout/nicola.yab`.
- `tests/` runs the library.

Provisional: the thumb keys are fixed (non-convert left, convert right), keys are
never withheld from the application, and any key that the keystroke engine does not
consume confirms the composition.
