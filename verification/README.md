# terra_app

The application core of a terrain editor: frames, input, evaluation, painting,
tile streaming, projects, start-up and logging, written and proved in Verus.

The library decides; it never touches a file, a window or a GPU. Whatever comes
from outside arrives as a plain value, and whatever has to happen outside leaves
as one: an effect, a step or a plan that the host performs.

## Layout

- `src/` is the verified library.
  - `lifecycle`, `turn`, `input`, `interaction`, `logical_frame`, `deadlines`,
    `frame_trace`: the event loop, from captured input to the presented frame.
  - `eval`, `eval_step`, `eval_run`, `worker_events`, `refinement`,
    `refinement_job`, `dirty`, `quality`: evaluation of the terrain on the GPU
    and on the background worker.
  - `tile_stream`, `document_reset`, `export`, `preview2d`, `editor_overlays`,
    `presentation_pipelines`, `pipeline_compile`: what reaches the screen and
    the exported files.
  - `actions`, `editing`, `paint`, `world_features`: edits of the document.
  - `project`, `lighting`, `prefs`, `paths`, `pipeline_cache`, `logging`, `startup`,
    `startup_benchmark`: files, start-up and diagnostics.
  - `clock`, `text`: time and text.
- `tests/` holds the tests of the library.
- `app/` is the program around it: the window, the logger, the dialogs, the
  benchmark runner, and the interface that a terrain engine implements.

## Conventions

- Floating-point values pass through the library as bit patterns; what has to be
  computed with them is computed in `app/geometry.rs` or by the engine.
- Time is a count of nanoseconds on the host's monotonic clock.
- A `pub proof fn` states a property that relates several functions; its doc
  comment says it in words.
- Two functions are trusted: the parser of log filters (`logging::filter_error`)
  and the quoting of text for log lines (`logging::quoted`).
