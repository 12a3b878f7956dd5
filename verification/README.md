# backend_gstreamer

The verified core of a small media player built on GStreamer.

- `src/` is the library, verified with Verus: the state of an open stream
  (`media_container`), the media manager (`media_manager`), the pipeline's launch
  description and playback states (`pipeline`), the bounded queue of decoded frames
  (`frame_channel`), turning RGBA frames into images (`frame_image`, `viewer`), the
  play/stop controls (`component`) and the errors (`error`).
- `app/` drives a real GStreamer pipeline with the library: it builds the pipeline,
  reads the stream's capabilities, applies the playback states the library decides, and
  shows frames.
- `tests/` exercises the library on concrete values.
