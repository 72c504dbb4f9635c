# taitan

The verified core of the taitan web framework, written in Verus.

`src/` is the library. Its functions are verified against their contracts,
except the small wrappers marked `#[verifier::external_body]` that call
`std`, `serde_json`, `jsonwebtoken`, `rand` and `uuid`: their contracts
(some with no `ensures`, where nothing can be promised) are trusted, and
their doc comments say what each one claims.

- `text`: trimming (Unicode `White_Space`), lower-casing, splitting and
  joining character sequences.
- `oss`: endpoint host names and canonical header entries for requests to
  the Aliyun object storage service.
- `error`, `response`, `result`: error codes, errors and their messages, the
  JSON answer envelopes and the status each is sent with.
- `file`: the origin name of a file segment, the single-name path check
  behind uploads, path joining, the upload size limit, and the uuid prefix
  of an upload.
- `middleware::jwt`: claims, keys, the path white list, the token black
  list, authorisation errors and the authoriser's decision.
- `middleware::grpc`: the rest/grpc routing rule and the readiness of the
  two routers.
- `server_conf`: configuration sections and their defaults.
- `oneshot`: comparing a response with the expected one in tests.

`app/` holds what runs around it: the axum handlers and services, file and
network I/O, the token codec, serde and clap conversions.
