# nullith

The logic of Nullith, a personal cloud for notes and files, as a verified library.

- `src/` is checked by Verus: API-key checks (`auth`, `routes::admin`, `routes::files`),
  error values and error bodies (`error`, `response`), note statements and their effect on
  the notes table (`routes::notes`), content types of files, identifiers and keys (`utils`,
  `routes::admin`), the gateway's routing and settings (`api`), and the text and number
  helpers they rest on (`text`, `number`).
- `app/` is the service around it: the Cloudflare worker (`app/cf`), the gateway server
  (`app/main.rs`) and the single-route Vercel functions (`app/vercel`). They read requests,
  secrets and databases, and hand plain values to the library.
- `tests/` runs the library on concrete values.
