# hello_apps

Small example programs (FizzBuzz, a random-access file session, and windows
drawn with vello, vello_cpu/softbuffer, parley, masonry, xilem, gpui and
cocoa), split into a verified library and the programs around it.

- `src/` is the library, verified with Verus: the FizzBuzz words, the
  operations of the file session and an in-memory file that gives them
  meaning, the CPU canvas (resizing a `vello_common` pixmap and packing its
  pixels into 0RGB words), and the event decisions of each window, with the
  laws that hold across them as proof functions.
- `app/` holds the programs themselves: event loops, GPU and file I/O, and
  drawing with floating-point geometry. Run one by name, e.g. `vello_hello`.
- `tests/` runs the library on concrete values.

Outside crates: masonry, masonry_winit, xilem, magika and gpui_kit are not in
`Cargo.toml`. With masonry and xilem beside vello the dependency tree was over
the size this build allows (they bring a second vello/wgpu stack), magika
would add its model runtime, and no crate named gpui_kit was asked for. The
programs that use them stay in `app/` as they are, so `app/` does not compile
without those crates; the other programs do. cocoa builds on macOS only.
