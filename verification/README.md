# qpipe

A verified library for Qpipe, a tool that runs scheduled AI workflow groups:
each group names a stream script, a cron schedule (or `now`) and a system
prompt; a relay server takes the scripts' questions on `POST /{name}`, asks
the GLM chat model, and hands the answer back on `GET /{name}` with the job's
`Process-ID` header.

- `src/` is the library, verified with Verus: the configuration and its
  defaults (`config`), the chat request and reply (`models::gm_model`), the
  per-group requests (`run`), the launch and cron decisions (`command`), and
  the routing and job bookkeeping of the relay server (`server`).
- `app/` is the program around it: command line, files, threads, processes,
  HTTP and the clock.
- `tests/` runs the library on concrete values.
