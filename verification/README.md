# stars

A small 2-D star simulation. `src/` is the verified integer core, checked
with Verus:

- `pairs`: the schedule of pairwise body interactions for one step, with
  proofs that it lists every unordered pair exactly once and that each body
  takes part in `n - 1` interactions;
- `animation`: the sprite frame clock, with a proof that frames loop in
  order with period equal to the frame count;
- `texture`: sprite placement, noise seeding, the bit-level first guess of
  the fast inverse square root, and PNG encoding of star textures;
- `spawn`: random placement, mass and temperature of new stars.

`app/` holds the window, the rendering, the floating-point physics and the
file output around the library. `tests/` exercises the library.
