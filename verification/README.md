# rust_plotter

The data pipeline behind a small plotting application, verified with Verus.

Raw samples are kept in stores (`data_transform::identity`,
`data_transform::orig`). Every edit of a store is described by a
`MutateInfo` (or `ChangeDescrip`) that names the positions it touched.
Transforms (`data_transform::transform`) replay those descriptions through a
mutator, and the graph drivers
(`graph::pts`, `graph::cyls`, `graph::mesh`) do the bookkeeping of the point,
cylinder and mesh buffers: which source entries are read, where results are
appended, and how the change is described downstream. `graph::notify` lists
the positions the front end is told about. `graph::cyls::law_pipeline_keeps_pace`
states that one chunk taken through the point and cylinder steps keeps those
buffers in step with the source: one point per source entry, and one
cylinder per pair of neighbouring points.

Layout:

- `src/` – the verified library.
- `tests/` – tests of the library.
- `app/` – the desktop application around it: the window, background tasks,
  random demo data, and the floating-point geometry, handed to the library
  as closures.
