# pico-hsm-api-connector

A gateway that lets clients use the keys of an HSM over mutual TLS, one JSON
object per line, with six operations and nothing else: `sign`, `verify`,
`encrypt`, `decrypt`, `derive_and_encrypt`, `derive_and_decrypt`. Clients are
known by the CN of their certificate and may do what the clients file lists for
them; every request is entered in a hash-chained audit log before the HSM is
asked anything.

The library in `src/` holds all decisions and is verified with Verus. It does no
I/O: where the gateway has to write, ask the HSM or answer, the library hands out
what is to be done next and is told what came of it.

| module | what it holds |
|---|---|
| `config`, `config_laws` | clients file, its validation, and the authorization table |
| `protocol` | requests and responses |
| `cert` | what is read out of a client certificate |
| `audit`, `audit_laws` | entries, the hash chain, verification of a log |
| `integrity` | the payload that authenticates a ciphertext |
| `hsm`, `hsm_laws` | calls of the PKCS#11 token, step by step |
| `execute` | what an authorized request asks of the token |
| `server`, `server_laws` | connections and exchanges from request to answer |
| `settings` | environment variables |
| `clock`, `codec`, `text` | time, encodings and texts, as std and outside crates give them |

Each `*_laws` module proves what holds over whole runs, for every answer that the
log, the HSM and the client may give: that the HSM is asked nothing before the
intent is on record, that nothing is decrypted unless its integrity signature was
found valid, that no ciphertext goes out unsigned, that tampering with the log is
detected, and more.

`app/` is the process around the library: settings, files, the PKCS#11 module and
the TLS listener. `tests/` runs the library with the outside crates it is linked
with.
