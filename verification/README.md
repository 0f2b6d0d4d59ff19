# azul

The core of a desktop GUI toolkit, written in Verus: what an application holds (its windows, images,
fonts, texts, deamons and tasks), and the course of its run from frame to frame.

The library does not touch the screen. `App::run` gives a `Runner`, which names the next piece of work
(`Runner::next_step`): poll a window for events, find out what is under the cursor, call a callback,
lay out, draw, swap buffers, sleep. The caller does that work and hands back what came of it
(`Runner::step`), until the step is `Step::Finished`. `Runner::finish` then gives the data of the
application back. `RunState::advance` says exactly what each reply
changes.

- `src/event.rs`: what the events of a frame ask of a window
- `src/ui_state.rs`: which callbacks a hit test calls, and what they are told
- `src/closing.rs`: taking the closed windows out, and no others
- `src/resources.rs`, `src/text_cache.rs`, `src/registry.rs`: images, fonts and texts
- `src/images.rs`, `src/palette.rs`: decoding an image, and which PNGs the decoder can be handed
- `src/render.rs`: the transactions for the compositor
- `src/app_state.rs`, `src/app.rs`, `src/window.rs`: the application and its windows
- `src/run_state.rs`, `src/main_loop.rs`: the run of an application
- `src/laws.rs`: what holds of every run
- `app/`: drives applications on a desktop, with `glium` windows and a WebRender compositor
