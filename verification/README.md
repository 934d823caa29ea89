# studio_loader

Loads Roblox Studio's executable into a process as if it were a DLL and
locates the routines needed to start it.

- `src/patch.rs` — reads the PE header, plans and applies the patch that
  makes the entry point return 1 and marks the image as a DLL.
- `src/find`, `src/offsets` — scan a copy of the loaded image for the C
  runtime start-up (`__scrt_common_main_seh`, `WinMain`, `main`, the
  initialiser tables) and the engine routines at fixed offsets.
- `src/slop` — the client shell: its command line, where it gets the place
  from and the web requests it makes, message routing, the state of user
  input, the view's fullscreen handling, the render job, the marshaller's
  queue, the upload dialog, and the engine boundary, which is inert without
  an engine.
- `src/structs.rs` — the engine's enumerations and their numbers.
- `app/` — file and process I/O, loading the module, calling the routines
  found, the Win32 window, the view and DirectInput calls that the state in
  `src/slop` decides.
