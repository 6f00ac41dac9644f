# vibe_renderer

The decision logic of an audio visualizer's renderer, verified with Verus.

- `src/` is the verified library:
  - `components::utils::bounded_ring_buffer`: a fixed-capacity FIFO ring
    buffer with borrowing and consuming iterators, a two-slice view of its
    contents and `pop_while`.
  - `components::rising_blocks`: the block manager, which starts a block in a
    column when its bar turns into a beat and keeps the blocks in the ring
    buffer; easing names.
  - `components::{bars, graph, radial, light_sources, sdf_mask}`: shader entry
    points and the choices that follow from a component's format, variant and
    placement (which fragment entry point draws a variant, how wide the bars
    are, how many bars a graph has, whether the bars are mirrored).
  - `components`: user shader code and the full source of a fragment
    shader (the preamble, then the user's code).
  - `cache`: the layout of a cached texture (row padding, unpadding the rows
    read back from the GPU) and its big-endian checksum.
  - `renderer`: picking a graphics adapter by name.
  - `texture_generation`: texture generator descriptions, workgroup counts and
    the cluster-center count of the light-source clustering.
- `app/` holds what works on the GPU, on files or with floats: the renderer
  itself, reading and writing the texture cache, the GPU registries, the
  float side of the rising blocks, the k-means light-source generator, the
  descriptor enums that carry colors, and the parsing of user shaders with
  naga. The parse stays out of the library because naga's frontends panic
  or exhaust the stack on some short sources (unchecked arithmetic when the
  GLSL preprocessor evaluates `#if` and when the WGSL lowerer lays out
  arrays; unbounded recursion in the GLSL parser), and no condition on the
  source that a contract could state tells those inputs apart.
- `tests/` exercises the library.

Times, colors and positions are floats; the library holds none. Where a
decision depends on a float (is a bar value a beat, has a block expired), the
caller computes it and hands the library a `bool` or a closure.

What is not here, and why:

- The components themselves (bars, graph, radial, circle, aurodio, chessy,
  fragment canvas, live wallpapers, rising blocks, value noise, white noise,
  encrust wallpaper) and the texture generators (gaussian blur, edge distance
  map, light threshold) build GPU pipelines from `.wgsl` shader files and from
  a module of pipeline helpers, which this project does not have, so these
  components are not built in `app/` either. Their non-float decisions stand
  in `src/` on small tag enums (`BarVariantKind`, `BarsPlacementKind`,
  `GraphVariantKind`, `GraphPlacementKind`, `RadialVariantKind`), which stand
  for the descriptor enums whose variants carry colors and positions.
- The audio side (`vibe_audio`, `shady_audio`, which feed the bar values) is
  not a dependency: it reaches the sound system through native audio
  libraries, and the renderer's logic needs only the values it produces. Where a component reads bar values,
  the library takes them as plain values (`&[bool]` beats for the block
  manager).
