# babafx

A minimal OpenFX host: it loads an image-effect plug-in, hands it the host
suites, and runs it through loading, description, instance creation and one
render of `input.png`.

- `src/` is the library, verified with Verus: property sets and every suite
  operation, as functions on the library's own types, on the bytes of C
  strings and on plain numbers (pointers as addresses, doubles as their
  IEEE-754 bits).
- `app/` is the program: the C interface of OpenFX, the handles given to
  plug-ins, the `extern "C"` entry points that call the library, memory
  allocation, image files and the plug-in loader.
- `tests/` exercises the library.
