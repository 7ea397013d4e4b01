# stec_shop

The common library of a small web shop, verified with Verus.

- `src/` is the verified library: the token service (AES-256-GCM-SIV
  tokens in hexadecimal, with key derivation and the round trip from a
  token back to its text proved), hexadecimal encoding, translation
  tables, mails and what the SendGrid APIs are sent for them, page
  contexts, configuration selection, image cache paths and the decisions
  of the sign-in routes.
- `app/` holds what talks to the outside world: reading configuration and
  translation files, the Rocket routes for sign-in and images, sending
  mails, the command line and template filters.
- `tests/` exercises the library on concrete values.
