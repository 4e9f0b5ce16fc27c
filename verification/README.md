# Fuin

Fuin encrypts Kubernetes Secrets with [age](https://age-encryption.org/) and recreates them in
the cluster through a controller. The names of the entries remain readable; only their values
are encrypted.

`src/` is the part that decides, written in Verus and proved against its contracts. `app/` is
the program around it: the command line, files, and the requests to the cluster.

| module | what it holds |
| --- | --- |
| `age_keys` | the calls into the age crate, and what is relied on of them |
| `encryption` | encryption and decryption of single values |
| `string_map` | an ordered map with text keys |
| `resources`, `types` | the parts of Kubernetes objects that are read and written |
| `secret_file` | reading a Secret from the text of a YAML file |
| `sealing`, `unsealing` | from a Secret to a sealed resource, and back |
| `controller`, `cluster` | the controller's decisions, request by request |
| `cli` | the decisions of `fuin seal`, step by step |
| `laws` | what holds of sealing and unsealing together |

A decision never talks to the cluster. It names the next request; the program performs it and
hands the reply to the next decision.
