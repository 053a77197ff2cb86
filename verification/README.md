# data_package

Market-data ingestion. Producers send packets over a channel; the ingesting
side routes each packet into the buffer of its exchange, renders it as a
line-protocol message, and writes a buffer to InfluxDB once it holds more
messages than its capacity. A second path buffers JSON records for an AWS
upload and builds a SigV4-style signed Timestream query URL.

- `src/` is the verified library: packet types, routing and buffering
  decisions, message and request construction, hashing and time formatting
  behind small trusted wrappers (ring, hex, chrono, std).
- `app/` is the program around it: the channel threads, the receive loops,
  the HTTP calls (reqwest, AWS SDK), environment variables and printing.
- `tests/` exercises the library on concrete values.
