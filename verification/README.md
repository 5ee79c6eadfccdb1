# zk_auth_totp

A password-authenticated, zero-knowledge login protocol, verified with Verus.

The client proves knowledge of its long-term secret `x` (with public key
`Y = x·B` in the Ristretto group) by a Schnorr proof made non-interactive with
the Fiat-Shamir transform. The challenge binds the proof to an ephemeral
Diffie-Hellman exchange (`A`, `B'`), a server nonce, and a time-based one-time
password derived from the shared DH key. The server stores only `Y`; the
client stores `x` encrypted with AES-256-GCM under an Argon2id key derived
from the password.

## Layout

- `src/` — the verified library
  - `encoding` — little- and big-endian byte encodings
  - `group` — scalars and Ristretto group elements (curve25519-dalek), modelled
    as residues modulo the group order and as discrete logarithms
  - `schnorr` — transcript, Fiat-Shamir challenge, proof generation and
    verification
  - `dh` — ephemeral Diffie-Hellman
  - `totp` — HMAC-SHA256 one-time passwords with dynamic truncation
  - `aes`, `kdf` — protection of the secret at rest
  - `messages` — client/server messages
  - `server`, `client` — the two sides of registration and login
  - `protocol` — properties of the whole protocol
- `tests/` — tests of the library
- `app/` — the command-line client and the TCP server (terminal input,
  network, JSON files on disk)

Run `zk_auth_totp server`, then `zk_auth_totp register` and
`zk_auth_totp login`, from the directory that holds `server/data` and
`client/data`.
