# llama_cpp_4

Checked tensor capture, tensor transactions and speculative sessions for llama.cpp contexts,
verified with Verus.

- `src/context/tensor_transaction.rs` is the callback program of a context: bounded selectors,
  complete copies, write-back of finite committed values only, captures that are committed with
  the decode that produced them. `transaction_model.rs` is its mathematical model, and
  `transaction_laws.rs` what holds of it as a whole.
- `src/context/tensor_capture.rs` decides which graph nodes are wanted and keeps copies by name.
- `src/context/params/` is the builder for context parameters.
- `src/eagle.rs` is the lifecycle of EAGLE-3 draft sessions, with `eagle_laws.rs` beside it;
  `src/speculative.rs` has the state and configuration bounds they share.
- `src/text.rs`, `names.rs`, `message.rs`, `float32.rs` and `name_map.rs` are the values all of
  that is made of. Single-precision values are held by their bits.
- `app/` is the native side: it reads native memory, calls `llama_cpp_sys_4`, contains panics,
  and hands plain values to the library.
