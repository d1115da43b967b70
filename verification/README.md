# composition

The logic behind web views that are drawn into a window's visual tree on
Windows, verified with Verus.

`src/` decides and `app/` acts. A window message becomes a `Dispatch`, which is
asked step by step what to do next and told what came of it; sequences of calls
that may fail are `Plan`s; the search for a window's shared visual tree is a
`HostSearch`. None of them calls the operating system, so each can be verified
and tested on any platform.

- `geometry`: points and rectangles in pixels
- `keys`: the buttons and modifier keys of a mouse event
- `message`: window messages and what is packed into them
- `input`: the state that decides what becomes of a message
- `dispatch`: the handling of one message, step by step
- `runs`: what the handling of a whole message comes to
- `plan`: sequences of calls that may fail
- `host`: the visual tree of a window
- `controller`: the controller of one web view

In `app/`, `drive` carries out what the library decides, `scale` turns logical
bounds into pixels, and the two `composition_*` modules, which exist on Windows
only, make the calls.
