# huskarl_login

A framework-agnostic login core, verified with Verus: configuration, session
cookies, session storage, session enrichment, and the decisions of the OAuth
2.0 Authorization Code flow.

- `src/` is the library. It performs no I/O: a function takes what the caller
  learned (a request's headers, a store's answer, the time) and says what
  follows. Its contracts are stated over views of plain data, and what holds
  across functions is proved in functions named `law_…`.
- `app/` wires the library to an authorization server, an AEAD cipher, a
  session store and a metrics recorder.
- `tests/` runs the library on concrete values.

What is taken from other crates without proof is small and stands in wrappers
whose doc comments name the function they call: header maps and URIs (`http`),
base64url (`base64`), query strings (`serde_html_form`), endpoint URLs
(`huskarl`), session keys (`uuid`) and retry jitter (`rand`); and of the
standard library `String::push`, `String::from_utf8` and the `Debug` form of a
text.
