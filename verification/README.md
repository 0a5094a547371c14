# musicalus

A small proxy in front of the NetEase Cloud Music web API.

- `src/` is the verified library: the request builders of each endpoint, the weapi and
  eapi form encryption (AES through OpenSSL, raw RSA, MD5 signatures), the JSON payload
  texts, the repair of audio URLs and the data types of requests and answers.
  `codec` holds the text encodings (decimal, JSON, hex, base64, big-endian numbers),
  `crypto` the form encryption, `protocal` the data types and URL repair, `web` the
  session settings, and the module root the endpoint requests.
- `app/` is the HTTP server: it reads `config.json`, sends the requests that the library
  builds with `reqwest` and serves the answers with `axum`.
