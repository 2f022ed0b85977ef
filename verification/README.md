# iced-wgpu-embed

Embed [iced](https://iced.rs) + [wgpu](https://wgpu.rs) views into native iOS,
Android and desktop view hierarchies, without winit.

The crate is written in Verus. `src/` is the verified library:

- `redraw_flag` — the shared redraw flag between the notifier and the render loop;
- `notifier` — `SimpleNotifier` (sets the flag) and `CallbackNotifier` (sets the
  flag and calls a closure);
- `diagnostics` — lock-free frame-time and underrun counters;
- `touch` — touch phases and their translation into input events;
- `input` — `InputQueue`, the cursor tracking and the event queue for the next
  frame, with its laws (a lift keeps the cursor for its own frame, a cancel
  clears it at once, a batch of touches tracks the cursor as the same
  touches pushed one by one, and so on);
- `frame` — the decisions the render loop makes each frame (retry after a
  surface failure, whether another frame is needed);
- `surface` — the choice of the surface's texture format;
- `viewport` — the GPU texture limit test.

`app/` holds what drives the GPU and the iced runtime: `IcedEmbed`, the
`Program` trait that applications implement, the `#[repr(C)]` touch types for
FFI, the floating-point `fit_surface`, and the bridge from the library's
notifiers to iced's `Notifier` trait.

`IcedEmbed::new` takes any implementation of iced's `Notifier`. The
library's `SimpleNotifier` and `CallbackNotifier` are passed through the
app's adapter, since the app cannot implement iced's trait on the library's
types directly:

```rust
let redraw_flag = RedrawFlag::new();
let notifier = ShellNotifier(SimpleNotifier::new(&redraw_flag));
let mut embed = IcedEmbed::<MyApp>::new(config, notifier, redraw_flag)?;
```
