# glimmer

A small web service that collects the locations of its visitors in a Redis
set and streams them back for display on a map.

- `src/` is the verified library:
  - `config`: loading the service settings from a YAML file through the
    `config` crate, with the fields read and checked in verified code;
  - `reply`: the two kinds of answer (a JSON status object or a bare 500);
  - `exact_location`: the decisions taken on a posted location, as a state
    machine whose caller reports the outcome of each step;
  - `isp_location`: the same for a request that locates the client by its
    address through an external location service;
  - `placeholder`: the lookup URL, with the client's address put in place of
    each `{}` of the configured URL;
  - `store`: the key, the stored member, the streamed lines and the expiry
    periods of the set of locations.
- `app/main.rs` holds the HTTP routes, the Redis and HTTP calls, the float
  parsing and formatting of coordinates, and `main`.
- `tests/` exercises the library on concrete values.
