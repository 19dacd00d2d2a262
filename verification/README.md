# mcu_registers_generator_new

Converts a SystemRDL description, already parsed into the syntax tree of
`ast`, into an arena of component definitions (address maps, register
files, registers, fields) with their instances, enumerations and property
values, and evaluates the constant expressions the description uses.

Every function in `src/` is verified with Verus against a model written as
spec functions:

- `eval` gives the meaning of constant expressions, property assignments
  and enumerations;
- `model` gives what each conversion does to the arena;
- `convert`, `world` and `root` implement the conversion and state it
  against that model;
- `laws` collects properties that hold for every input (operand widths,
  field placement, enumeration numbering, name lookup);
- `value`, `bits` and `integer` hold property values, bit literals and sized
  integers.

`app/` prints the generator's progress messages around the library.
