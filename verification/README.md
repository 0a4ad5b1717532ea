# bcvk

Parts of bcvk, which runs bootable container images as virtual machines, written
in [Verus](https://github.com/verus-lang/verus): the explanation of podman
failures that come of podman not seeing bcvk's filesystem, and the varlink
service.

- `src/` is the library. What each function does is stated in its contract and
  proved, except in `src/external.rs`, which states what is relied on of other
  crates. The properties that hold across functions are the `law_*` proof
  functions.
- `tests/` runs it.
- `app/` connects it to the outside world: the varlink server, socket
  activation, and looking for files.
