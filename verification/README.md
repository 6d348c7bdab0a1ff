# pdf_content

A verified library for two parts of a PDF reader:

- `bytes` holds a bounded store of source ranges: readers wait on tickets for absent bytes,
  supplied bytes are coalesced and never change, and a source that changed poisons the store.
- `content` scans decoded page content, plans its operators into semantic actions, acquires the
  images, forms and fonts that they use, and materializes the plan onto a scene.

Interpretation is a sealed state machine. The library decides; lookups, acquisitions, fixed-point
products and scene construction are asked for one at a time and answered by the caller.
`app/driver.rs` shows the loop.

Contracts are stated over mathematical models (`*_model.rs`); laws that relate several operations
stand beside them (`*_laws.rs`, and public proof functions in the other modules). Two things are
left open by the models, and both are named in the contracts:

- The byte source and the cancellation, which a run asks between its steps. What they may answer is
  what their own contracts say (`GuardView`). A step that asks them goes on only where both let it
  through, and reports a changed source or a cancellation only where one of them said so, for the
  operator that it names.
- The allocator. Where an operation has to hold more than before, it may also stop because the
  allocator refused, or because the capacity that it gave passes a budget. The contracts say where
  that can happen and which failures report it; so do they of the fuel that it may cost to move
  elements when a list grows.
