# doup

A small file-drop service. An operator holding the `TOKEN` asks for an
upload slot (`/generate_upload`) and receives its id; a visitor opens the
upload page of the slot (`/upload`) and sends one archive into it
(`/get_upload`) within ten minutes; the operator then downloads the archive
(`/give_upload`).

- `src/` is the verified library. Each request is a state machine
  (`routes::Exchange`): a step takes the result of the last piece of outside
  work (a database row, a file's bytes, ...) and returns the next piece of
  work or the reply. `routes::next` is the transition rule; `routes::laws`
  proves what holds across steps and routes (every request is answered, a
  wrong token is refused, a slot is open for ten minutes and takes one
  archive, readers never write). `routes::service` models the uploads table
  and the files on disk and proves the same over whole requests and
  sequences of them (one archive per slot, the operator downloads exactly
  what was uploaded).
- The server reads the clock and hands the time to `Exchange::step_at`
  when `Exchange::needs_clock` says the step uses it.
- `app/` is the actix-web server: it performs the database queries and file
  operations that the exchanges ask for.
- `tests/` runs the library on concrete requests.
