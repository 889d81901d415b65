# webauth

Unlock a Windows machine with a web request: a service listens on port 4242
for `/?user=<name>&passwd=<password>` and forwards the credentials over the
named pipe `\\.\pipe\webauth` to a credential provider DLL, which offers them
to the logon UI as a single tile that logs on at once.

- `src/` — the verified library (Verus): the pipe protocol (`message`), the
  provider's state and answers (`provider`, `credential`, `factory`,
  `sample`), the service's login and keep-alive decisions (`service`), and the
  string operations they rest on (`text`, `wide`).
- `app/` — the Windows side: COM objects, pipe I/O and the HTTP server, each
  calling the library for its decisions.
- `tests/` — tests of the library on concrete values.
