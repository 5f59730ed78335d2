# simplicityhl jet tooling, verified

The jet side of the SimplicityHL compiler: the high-level types that describe
jet signatures, their canonical text form and parser, the portable byte format
in which jet classifications travel between a compiler and a jet library
loaded at run time, the host side of the byte-level protocol with such a
library, and the scope in which programs are analyzed.

## Layout

- `src/` is the library, proved with Verus:
  - `types.rs` unsigned integer types, builtin aliases and the two type trees
    (`AliasedType`, `ResolvedType`) with their mathematical model;
  - `text.rs` and `parse.rs` the canonical text of a type and its parser,
    which accepts exactly the canonical texts;
  - `jet.rs` jet classifications and the signatures derived from them;
  - `core_jets.rs` the signatures of the Core jets;
  - `wire.rs` the byte format of classifications and its round trip;
  - `plugin.rs` the example jet library and the functions it exports;
  - `host.rs` the decisions of a compiler that talks to a jet library in a
    separate memory: reading buffers, replaying encoded bits, the probe;
  - `witness.rs` witness and parameter maps and their consistency checks;
  - `ast.rs` syntax tree parts and the analysis scope: variables,
    parameters, witnesses, aliases and functions with their visibility;
  - `analysis.rs` the type checker: it turns a parse tree into an abstract
    syntax tree in which every expression has its type. Its contracts give,
    for every expression, statement, call, function and program, exactly when
    the analysis succeeds, the state it leaves and otherwise the error it
    reports, through recursive specifications of the typing, and they tie
    each analyzed tree to the parsed one part by part. The parse tree it takes covers boolean
    constants, witnesses, parameters, variables, tuples, arrays, lists,
    `Left`/`Right`, options, calls of jets, builtins and custom functions
    (with folds and loops), blocks and matches whose arms bind at most one
    variable. It does not cover number literals, type casts, destructuring
    patterns, the tracking of calls for debug symbols, the analysis of
    constant expressions, or the accessors of an analyzed program beyond its
    main expression, parameters and witness types;
  - `dynlib.rs` the error of the dynamic library loader.
- `tests/` runs the library on concrete values.
- `app/` is ordinary Rust around the library: implementations of the
  `simplicity` crate's jet traits, dynamic library loading, and the wasm host
  entry points.
