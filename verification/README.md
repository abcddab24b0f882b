# naga_msl

A writer of Metal Shading Language. It turns a shader module into Metal text, and Verus proves
that the text, and every failure, is the one that the module's grammar gives.

- `src/ir.rs`, `src/typing.rs`, `src/options.rs`: what the writer is given. A module comes with
  its identifiers assigned and its expressions typed.
- `src/grammar/`: spec functions that say what each part of a module is written as.
- `src/emission.rs`: the text that a step appends together with the fault that it stops on, and
  how steps compose.
- `src/writer/`: the code that writes, proved against the grammar.
  `Writer::write` asks that all that the text comes to exists, none of it being part of itself;
  `Writer::try_write` tells whether that is so.
- `src/laws/`: what holds of the text as a whole: its order, its lines, its numbers, its
  declarations and its brackets, how deep it nests, and what repeated calls give.
- `app/`: writing to a stream.
