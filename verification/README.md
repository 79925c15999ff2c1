# lean_occt

Topology bookkeeping for a B-rep modelling kernel that is reached through a
small C interface, written in Verus with its behaviour stated in contracts
and proved.

`src/` is the verified library:

- `kinds`, `abi`: shape, curve and surface kinds, orientations and loop
  roles, and the numeric codes of the C interface with their conversions.
- `decode`: the raw arrays of a topology snapshot turned into index tables.
- `topology`: the flat tables (ranges over shared arrays), packing wires into
  them and recording the faces of each edge.
- `wire`: ordering the edge uses of a wire into a chain, reading a wire out of
  its own snapshot, and matching a face's wires to the shape's wires.
- `face_wires`: the wires of one face, the roles of its loops, and the edges
  that can carry a swept surface's basis curve.
- `brep`: reading wires, face loops and adjacency back out of the tables.
- `summary`: classifying a shape by its counts, and the order in which the
  figures of a summary are sought.
- `document`: named shapes of a modelling document.
- `session`: the queries that ask the kernel for sub-shapes, as state
  machines that name the next request and take its reply.
- `probe_layout`, `ported_kinds`, `error`: the index layout of edge probing,
  the kinds of the analytic curves and surfaces, and the error messages.

`app/` binds the C interface, performs the kernel requests that the
library's queries make, and does the floating-point geometry (point and
length comparisons, sampled areas) that decides which indices the library
is handed.
