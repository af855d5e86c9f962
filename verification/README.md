# miki_backend

Backend of a WeChat mini program: whitelist management on MySQL, login-code
exchange, OSS and mini-program credentials, and JSAPI payments with WeChat
pay.

- `src/` is the verified library (Verus): URL and SQL command texts, the
  in-memory task table, the JSAPI payment flow as a state machine whose
  steps are proved against their contracts, the response bodies of the
  routes, and the text helpers they rest on.
- `app/` is the actix-web server around it: configuration files, the MySQL
  pool, HTTP calls, the WeChat pay SDK, JSON (de)serialization and the loop
  that drives the payment flow.
- `tests/` exercises the library on concrete values.
