# rgpui

The element layer of a GPU-accelerated UI toolkit, as a verified library: the
widgets' configuration and looks, the decisions interactive elements make on
input, scrolling, anchoring, tooltips, and the virtual list's state machine.
Every function in `src/` carries a contract that Verus proves.

Pixel quantities are whole logical pixels in an `i64`; colors are recipes over
theme tokens (a theme resolves them to concrete colors).

Layout:

- `src/` — the library, one module per component or concern:
  - geometry, theme, element: pixels, points, bounds, edges, colors, sizes;
  - text, decimal: string search and case folding, decimal rendering;
  - button, button_icon, checkbox, radio, switch, tag, badge, alert, avatar,
    breadcrumb, card, icon, separator, skeleton, slider, spinner, label, kbd:
    widgets, what they are configured with and how they are drawn;
  - interaction, interactivity, style_state, tooltip, accessibility: what an
    interactive element does with presses, keys, wheel turns and hovering,
    which style layers apply, and what it tells assistive technology;
  - scroll_handle, scrollable_mask, auto_scroll, anchored, deferred: scrolling,
    placement and the drawing order of deferred elements;
  - dom: how an element is presented as a node of the web backend's DOM overlay;
  - list, list_state: the virtual list, its measured items, scroll position,
    follow-tail mode and layout passes.
- `tests/` — scenarios and examples run against the compiled library.
- `app/` — what runs around the library: process-wide counters, the platform
  choice for key names, floating-point easing and slider values, the frame loop
  of a list, and the writing of accessibility nodes with AccessKit.
