# curosu

A cursor overlay for Windows in the style of osu!: it hides the system's cursor and draws
its own, which shrinks and glows while a button is down, turns along a drag, spins three
times when it is let go and swings back upright.

`src/` is the verified library. It holds everything that decides: the stages of the
animation, the mouse hook's reports, what each frame does to the window, hovering and its
sounds, the settings and the settings window, sound files, pictures and the buffer that
the cursor is drawn into. Its contracts are proved with Verus.

`app/` is the program around it: windows, threads, devices, files and the arithmetic on
floating-point numbers. The library sees a floating-point number as its bit pattern,
compares and bounds it, and leaves calculating to the program.

The pictures, sounds, icon and font are read from the directory `assets` beside the
program.
