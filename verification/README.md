# simple_provider_adapter

The decision logic of an OpenSSL provider adapter that forwards key
management and signing to a pluggable key backend, written in Verus with
its contracts proved.

- `spki`: DER assembly of EC and RSA SubjectPublicKeyInfo structures.
- `der`: the DER model (length octets, TLV, big-endian numbers), the
  header reader, and the extraction of the subject-public-key bytes, with
  the proof that extraction inverts assembly.
- `digest`: OpenSSL digest names mapped to backend digests.
- `params`: OSSL_PARAM values and scans over parameter lists.
- `keymgmt`: per-key records, the parameters reported for a key, load,
  import, export, dup.
- `signature`: mechanism selection and signing-session state.
- `provider`: the algorithm and parameter tables the provider advertises.
- `codec`: the encoder and decoder contexts, which refuse all work.
- `errors`, `text`: error values and string comparison helpers.

Calls into the key backend (key lookup, public-key export, signing) are
made by the embedding component; the library takes their results as
arguments.
