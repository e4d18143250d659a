# rbucket

A video upload-and-convert service. Clients upload videos in a multipart form
(authorized by an HS512 bearer token); each accepted part is stored under a
fresh id, described with `mediainfo`, hashed with `sha256sum` and queued for
conversion to WebM by `ffmpeg`.

- `src/` is the verified library (Verus): the file records (`obj`), the
  bearer-token and rejection rules (`handler`), the per-request upload
  protocol as a state machine with its laws (`upload`), the conversion worker
  and its status route (`worker`), and the simpler MP4-only deployment
  (`basic`).
- `app/` is the server: warp routes, multipart and file I/O, running the
  external programs, JWT decoding and JSON replies. It drives the library's
  state machines, performing each action they return.
- `tests/` exercises the library on concrete inputs.
