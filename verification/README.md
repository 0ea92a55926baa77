# aarch64_vm

A verified library for running AArch64 user programs on a small virtual
machine, written in Verus.

- `utility`: bit fields, little-endian word reading, and bit patterns written
  as strings of `0`, `1` and `x`.
- `machineinstr`: the AArch64 instruction set as data, and a decoder from
  32-bit instruction words to it; each decoding function is proved equal to
  its specification.
- `vm`: the byte-coded VM instruction format (header, operand encodings and
  their reading back), the compiler from AArch64 instructions to VM
  instructions, the decoding helpers it relies on, program images, and the
  VM's error and interrupt types.
- `virtio`: the interface of virtual devices.

`app/` is a command line front end that loads an ELF file, builds its image
and compiles its `.text` section, printing each VM instruction.
