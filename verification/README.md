# blured

The verified core of Blured, a wallpaper provider for Wayland that shows image
scenes with toggleable shader effects and slideshows.

`src/` is the library, verified with Verus:

- `hex`, `color`: background colors and their hex notation (reading and writing,
  with the proof that what is written reads back the same).
- `params`: slideshow intervals, image sources, monitors, image fitting, effects.
- `config`: which file of the config directory names which config, and the table
  of configs with the active one.
- `renderer`: the scene and effect state of the renderer and when the surface is
  out of date.
- `slideshow`: when the slideshow moves on and how long the frame loop sleeps.
- `ipc`: framing on the control socket and what each request does and is answered.
- `wlclient`: the Wayland client's choices of globals and its wait for a surface.
- `raymarch`: rays and the multisampling of the ray-marched effects.

`app/` is the program around it: config files (serde, toml), the Wayland
connection, the control socket, the frame loop and the float shader math.
`tests/` runs the library on concrete values.
