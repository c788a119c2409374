# frame_tx

Verified implementation of the four opcodes that EIP-8141 frame transactions add
to the EVM: APPROVE (0xAA), TXPARAMLOAD (0xB0), TXPARAMSIZE (0xB1) and
TXPARAMCOPY (0xB2).

- `word`, `primitives`: 256-bit words, addresses and hashes
- `gas`, `stack`, `memory`, `interpreter`: the machine an opcode works on, and its
  model `Machine`
- `context`: the transaction context, the host trait, and the rules of approval
- `params`: the table of parameters that can be read
- `frame_tx`: the opcodes; each contract equates the machine and the context after
  the call with a step function of those before it
- `laws`: what follows of the opcodes together

Three functions are trusted, all in `word`: they convert integers and bytes to
words, and words to bytes, with `alloy-primitives`. A host written outside verified
code is trusted to return its own context from both methods of `FrameTxHost`, and to
change nothing else.
