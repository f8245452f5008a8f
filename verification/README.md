# llmd

`llmd` hosts local LiteRT-LM models behind an OpenAI-compatible API. This
crate holds its decisions as a verified library, and the program around it.

- `src/` is the library, verified with Verus: the shared API types
  (`api`), the model store's id rules, listing and directory choice (`store`),
  importing a model as a step machine (`import`), turning a chat into a native
  conversation (`conversation`), the OpenAI wire bodies and streaming
  (`openai`), the Android bridge's bookkeeping (`android`), the desktop host's
  health report (`host`) and the planning of the Android end-to-end run
  (`device`). `text` holds the character-sequence helpers they share.
- `app/` is the program: the command line and terminal UI, the HTTP server,
  the desktop provider with its file and network work, the native engine
  binding, the JNI entry points and the end-to-end runner. It hands plain
  values to the library and acts on what comes back.
- `tests/` runs the library on concrete inputs.
