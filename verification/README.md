# dnacalc

The skin layer of DNA Calc with its logic verified by Verus.

- `src/` is the verified library: the Strand design tokens (palette, themes,
  CSS custom properties, identity blocks, contrast pairings), the Sheet
  stage's select/edit grammar, key maps, viewport notes and edit session,
  the Notebook stage's derivation of blocks from a workspace projection, its
  block editors, name forms and delete seam, the Atlas readouts, and the
  cell-entry seam both stages author through. Every public function states
  what it returns in its `ensures`, including
  where the result comes from a service the host implements:
  `preview_block_delete` states that the service is asked about exactly the
  given intent and that its answer decides the result (an impact gives a
  ghost carrying it, an error the receipt fallback). The laws that span functions are public `proof fn`s.
- `tests/` runs the library on concrete values.
- `app/` is the browser side that Verus does not see: canvas drawing, DOM
  event reading, the floating-point sheet geometry, gestures and zoom, the
  contrast arithmetic, and serde copies of the token types.
