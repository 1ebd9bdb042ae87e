# redis_microsvc

A news feed kept in a Redis hash (`feeditems`): each item is stored under a
GUID key as one record, its title, body and time joined by the character
U+1F914.

- `src/` is the verified library: the item model (`model`), the record format
  and its laws (`record`), Redis reply values (`resp`), the decisions of the
  feed and static-file endpoints (`api::feed`, `api::home`), and the few
  trusted wrappers over std (`text`), over chrono (`clock`, with the shape
  of the time stamp), and over guid-create and
  mime_guess.
- `app/` is the HTTPS server around it (actix-web, actix-redis, rustls,
  actix-web-prom, rust-embed): it sends the library's commands to Redis and
  turns the library's answers into HTTP responses.
