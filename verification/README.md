# splatcom

Verified core of a single-client gaussian-splat render server.

- `src/` is the library, verified with Verus:
  - `float_bits`: `f32` values held as bit patterns, with `<` and `==` decided exactly as IEEE-754 does;
  - `message`: the request and response messages and the render job;
  - `util`: the quaternion convention change and the frame path of a request;
  - `timing`: request instants and the render latency;
  - `render`: the corrections a request goes through before rendering, and the answer after;
  - `server`: the job queue between the socket side and the render loop, with its shutdown flag.
- `app/` is the process around it: socket, JSON, GPU rendering, image files, logging.
- `tests/` runs the library against the hardware float comparisons and against chrono.
