# modelkit

Two pieces of model-serving machinery whose decisions are verified with Verus.

- **The model hub** finds a model's files: in the local hub cache, through the model server, or
  by a direct download.
- **The offload engine** simulates the offload of cache blocks from device memory (G1) to host
  memory (G2): no data moves, only delays pass and block identities are tracked.

`src/` holds the verified library.

| Module     | What it decides                                                              |
|------------|------------------------------------------------------------------------------|
| `text`     | strings: case, path joining, file extensions                                 |
| `settings` | what the environment variables ask for: flags, cache directory, client setup |
| `snapshot` | whether the cache holds a model, one file lookup after another               |
| `hub`      | where a model comes from, as a state machine driven by its caller            |
| `offload`  | transfer delays, block identities, lookups                                   |
| `pool`     | the registry and the pool of host-memory blocks                              |

`app/` is ordinary Rust around it: environment, disk, network and floating-point delays. It
also needs `kvbm-engine`, `kvbm-physical` and `velo`, which are not among the dependencies
here: they build only where NIXL and the protobuf compiler are installed.
