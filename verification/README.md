# sensor_rt

Camera drivers for Jetson: RTSP/H.264 over NVMM, and OAK stereo cameras.

- `src/` is the library, verified with Verus: everything that the drivers decide or compute, on
  plain values. It calls no device. The one outside call is the construction of a
  `kornia_image::Image`.
- `app/` is the driver crate around it: it makes the calls into GStreamer, CUDA and depthai that
  the library asks for, hands back what came of them, and does the floating-point arithmetic.
  It needs a Jetson with GStreamer, `libnvbufsurface` and the depthai wrapper.
- `tests/` runs the library on concrete values.

Numbers that come from a device as floating point are carried as bit patterns
(`ieee::Float32`, `ieee::Float64`), which the library compares and moves but never adds or
multiplies.

The settings of an OAK camera are read from the environment:

| Variable | Meaning |
|---|---|
| `OAK_USB_SPEED` | `super` for USB 3; USB 2 otherwise |
| `OAK_H264_KBPS` | encoder bitrate, 2000 if unset |
| `OAK_DEPTH_FPS` | depth rate, the colour rate if unset and never above it |
| `OAK_RGB_FPS` | raw colour rate, 10 if unset and never above the colour rate |
| `OAK_DEPTH_DIV` | downscale of depth frames, 2 if unset |
| `OAK_SUBPIXEL` | `0` or `false` switches subpixel disparity off |
| `OAK_IR` | intensity of the dot projector, 0 to 1, 0.8 if unset |
| `OAK_VIDEO_GATED` | `1` starts with the encoded stream switched off |
