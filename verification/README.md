# moonegg-core

The playback core of the MoonEgg media player, verified with Verus.

- `src/` is the library: time bases and media time, the WAV parser and
  demuxer, the PCM decoder, the simulated and Android audio outputs, bounded
  queues and playback generations, the audio and playback pipelines, the
  audio clock and A/V sync, the player state machine and control loop, the
  decisions of the effect loop, of the effect executor and of the playback
  worker, byte-source windows, and the application bridge with the texts of
  its reasons. Verus proves each
  function there against its contract. A few say little or nothing of their
  result, because it comes from the machine or from code outside the
  library: the monotonic clock's readings, the cancellation token, the
  methods of the native PCM stream trait (implemented around the Android
  stream), and what that stream answers. The Android output keeps ghost
  records of those answers (the format it reported, the samples handed to
  it, its counters and its errors), and its contracts are stated over them.
- `app/` holds what runs around it: the control, effect and playback worker
  threads and their channels, file sources, the WAV demonstration, the
  application bindings, and the native Android audio stream.
- `tests/` exercises the library on concrete values.
