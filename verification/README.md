# josh_sync

Synchronises a subtree repository with its upstream through Josh: pulls bring
upstream changes in, pushes offer local changes on a new upstream branch.

`src/` is the library, verified with Verus. It holds the configuration and its
checks, the Josh filters and the conversion of their older syntax, the git command
lines, and the decisions of a pull, of a push and of the offer to open a pull
request. These three are step by step: each call takes the answer to the last
action and says which lines to show and which action comes next. `pull_laws` and
`push_laws` state what holds of every run, such as that a pull which finds nothing
puts HEAD back, and that a push only ever creates a branch.

What is believed without proof is marked `external_body`: two calls of `regex`, one
of `urlencoding`, and `str::parse` of the standard library.

`app/` performs the actions: it runs git, Josh and `gh`, reads and writes the
configuration file, and holds the command line. The program runs under two names,
`josh-sync` and `rustc-josh-sync`; the second also keeps a file, `rust-version` by
default, in which a pull that succeeds records the upstream commit. `RUSTC_GIT`
names a separate upstream checkout, from within which a push asks the upstream
repository whether its branch is there.
