# tuikk

The verified core of the tuikk terminal client for Docker.

- `src/` is the library, checked by Verus:
  - `text`: Unicode white space, trimming, prefixes, decimal numbers;
  - `base_err`: the errors that every module shares and their messages;
  - `config`: the application settings, their defaults, what a missing
    settings file leads to, and the fallback when loading fails;
  - `docker_conn`: the Docker settings, the client constructor they select
    (address trimming, `tcp://` to `http://`, `major.minor` API versions,
    the local transport in place of Unix sockets elsewhere), the clients
    built with the call that built them, and the slot that holds the one
    shared client;
  - `ext_log`: pass-through helpers for reporting results;
  - `base_err_ext`: what `#[extend_base_err]` does to an error enum, from
    reading its tokens with `syn` to the derives and variant it adds.
- `app/` is the program around it: reading and writing the settings file,
  logging, the shared slot behind a lock, the Docker ping, and writing the
  extended enum of `#[extend_base_err]` back as tokens.
- `tests/` runs the library on concrete values.
