# triangle

A Vulkan program that draws two spinning triangles in a window, split into a
verified library and a thin driver.

- `src/setup.rs`: start-up choices (physical device, queue family, swapchain
  settings) and the framebuffer/viewport setup redone after each swapchain rebuild.
- `src/events.rs`: how polled window events set the loop's `done` and
  `recreate_swapchain` flags.
- `src/frame.rs`: the render loop as a state machine from state and event to
  next state and action.
- `src/laws.rs`: properties that span several events.
- `app/main.rs`: the driver. It owns the window, the GPU objects and the clock,
  performs the actions the state machine returns and reports their outcomes.
  Vertex positions (sines and cosines of the elapsed time) and the frame rate
  are floating-point work and stay here.
