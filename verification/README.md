# herbolution

The verified core of the Herbolution voxel engine.

`src/` holds the logic of the engine with its contracts and proofs:

- `noise_dim`, `sampling`: the extents of a noise grid and the order in
  which it is sampled one SIMD vector at a time, with proofs that every
  plan writes each cell once, in order, at the flat index of the cell it
  samples;
- `perm`, `simplex`, `gradient`, `cell_hash`: the permutation table, the
  lattice hashing of simplex noise, the choice of corner gradients and the
  hashes of cellular noise;
- `noise_kind`, `backends`: which walks each kind of noise supports and how
  many lanes each SIMD back end has;
- `input`: held keys and buttons and the events of a frame;
- `pbr`, `texture`, `text`: material file names, plain stand-in textures and
  the glyph set of the text renderer;
- `gpu_sync`, `tile_mesh`, `render_type`: when and how CPU-side data reaches
  the GPU, the tile meshes, and the pipeline layouts of the renderers.

`app/` holds what needs floating point or the operating system: the noise
arithmetic on `f32` offsets, the window-system input adapter and the reading
of texture files.
