# framework

The configuration of a node: its defaults, how a home directory is initialized, how the
files of a node are checked when it loads, and how test networks are laid out.

- `src/` is the verified library. Each decision is a function with a contract: the
  defaults (`config`), block production delays and RPC addresses (`config`), where
  published files are fetched from (`urls`), which key files a node needs and what is done
  with each (`keys`), the genesis of test and local networks (`genesis`) and their shard
  layouts (`shard`), the choices made when a node is initialized (`init`), the nodes of a
  test network (`testnet`), the settings of a running node (`client`), the checks made
  when a node loads (`load`), and the shard layout of a snapshot (`snapshot`). Calls into
  the account id, crypto and config utility crates stand behind small trusted functions
  in `account`, `signer`, `json` and `load`.
- `app/` reads and writes the files, downloads, and builds the values of the node's other
  crates from what the library decides.
- `tests/` runs the library on concrete values.
