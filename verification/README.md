# eth_analysis

The verified core of an Ethereum analysis backend, written in Verus.

- `src/` is the library. Every function in it carries a contract. Verus
  proves the contracts of the library's own functions; those of the few
  wrappers around chrono, num-bigint, sha1, base64, etag and the standard
  library's parsers (marked `external_body`) are taken on trust, with doc
  comments that say what each one claims. The modules:
  - `beacon_chain::units::slot`: slots, the date-times at which they start,
    which date-time falls in which slot, and which slots start a UTC day or a
    minute;
  - `eth_units`: amounts of Gwei, their arithmetic and the conversions from
    ether, `i64`, decimal text and wei;
  - `time`: UTC date-times as seconds and nanoseconds, and the calendar fields
    that chrono computes from them;
  - `serve`: content hashes, entity tags, the response to send for a cached
    value, and which in-memory value a cache notification refreshes;
  - `decimal` and `execution_chain`: decimal integer text and hard fork
    timestamps.
- `tests/` runs the library on concrete values.
- `app/` holds what Verus does not check: the Postgres key-value store, the base
  fee statistics and reward estimates (database queries and floating point),
  the HTTP server, and the serde and sqlx glue for the library's types.
