# nova_kernel

The topology and data-exchange core of a B-Rep CAD kernel, written in Verus:
every function in `src/` carries a contract that Verus proves.

- `src/topo/`: bodies, shells, faces, loops, coedges, edges and vertices;
  entity identifiers; Euler operators; extrusion and revolution of a
  profile; building a cube; validation of a
  body's topology; counting its parts.
- `src/io/`: the STEP reader (header and entity parsing), the building of
  bodies from a STEP file's solids, the STEP writer, STL and native-format
  writers, file formats and options.
- `src/sync/`: direct-editing support: face edits and their history,
  conflict resolution between faces, live rules and the faces related by an
  edge, feature handles and what dragging one does.
- `src/check.rs`, `src/ops/`, `src/tess.rs`, `src/ffi.rs`: validation
  results, operation requests and errors, which edges can be filleted,
  meshes, and the decisions behind the C interface.

Coordinates, tolerances and other real numbers are carried as the bit
patterns of their `f64` values; the arithmetic on them lives outside the
library.

`app/` holds what Verus does not see: file I/O, the JSON form of the native
format, unit factors, the floating-point parts of STEP import (point
positions, whether a line, circle or surface can be built from its numbers),
of dragging a handle and of fillet radii, and the exported C functions. `tests/` runs the library
on concrete values.
