# axcelium

The core of the Axcelium identity service, verified with Verus.

- `src/` is the library, checked by Verus. Its functions carry contracts
  that Verus proves, with two kinds of exception: constructors of field-less
  types and the Redis client constructors state nothing beyond their types
  and preconditions, and calls into outside crates (`aes-gcm`, `base64`,
  `argon2`, `uuid`, `chrono`, `redis`, `rusty_paseto`) go through small
  trusted wrappers whose contracts Verus believes without proof; each
  wrapper's doc comment says what it claims of the outside function. The
  library covers bearer credentials and their authentication, AES-GCM and
  base64 sealing of client secrets, Argon2 password hashing, refresh-token
  PASETOs, the rules on new users, the row models and their mappings, the
  cache-aside and seeding steps, the queue's topics and message handling,
  and the reading of configuration.
- `app/` is the I/O around it: Redis, Kafka and Scylla, JSON forms of the
  library's types, and the loops that carry out what the library decides.
- `tests/` runs the library on concrete values.
