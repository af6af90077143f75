# cnix

A Nix front end for development environments, in two parts.

- `src/` is a library, verified with Verus, that decides: which command an
  operation becomes, how a command is started and what follows from its end,
  which binary caches a project uses and whose keys are trusted, which links
  keep results from garbage collection. It performs nothing itself.
- `app/` performs: it starts processes, reads and writes files, asks the network
  and talks to the user, as the library says.

## How the two meet

An operation such as `Nix::build` returns a `Request`. `Nix::run_nix` and
`Nix::run_nix_with_substituters` make it into a command on its way, together with
a first `RunAction`. Whoever performs the action hands a `RunEvent` to
`Nix::continue_run` and gets the next action, until the action is to succeed or to
fail. The search for caches (`Nix::get_cachix_caches`, `Nix::continue_search`), the
operations that keep a root (`Nix::dev_env`, `Nix::add_gc`, `Nix::continue_root`),
the giving up of paths (`Nix::gc`, `Nix::continue_gc`) and the report on a project
(`Nix::metadata`, `Nix::continue_metadata`) go the same way. Messages to the user are appended to a log of `Notice`s.

Paths and variables are text here: `app/` converts what the system hands it, and
fails on a path that is not UTF-8.

## What is proved

Each function states what it returns and what it reports, over the views of its
arguments. What is left open is the time, the order in which keys are written to the
key file, and the order in which they come out of it.
What holds of the front end as a whole stands in `src/laws/`: a key that is trusted is
never replaced, a user whom the store does not trust gets no caches, every command
and every search comes to an end, a search fails for one of four reasons and no other, a request goes on without caches where the search
for them fails, and more.

## What is trusted

- `text`: `String::push`.
- `path`: `std::path::Path::with_extension`.
- `bytes`: `String::from_utf8` and `String::from_utf8_lossy`.
- `clock`: `std::time::SystemTime::elapsed`.
- `inputs`: `regex::Regex::new` and `regex::Regex::captures`, for one pattern.
- `keys`: `serde_json::from_str` and `serde_json::to_string`, for maps of strings.

The program that uses `app/` supplies a `Logger` and an `EvalCache`.
