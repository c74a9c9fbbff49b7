# coldfusion

A small STL viewer. The verified library (`src/`) holds:

- `stl`: loading an STL (ASCII or binary) from its bytes with `stl_io`, and the
  views of the resulting indexed mesh that the rest of the library reads;
- `mesh`: laying out an indexed mesh as GPU vertex and index buffers, one GPU
  vertex per face corner, with proofs that the index buffer draws exactly the
  mesh's faces;
- `stats`: the frame counter behind the FPS display, with a proof that no frame
  is lost or counted twice.

`app/` is the window, camera and wgpu renderer around it (`eframe`, `egui`,
`glam`, `bytemuck`), which deal in floating point and GPU calls.
