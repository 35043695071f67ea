# atlas_plan

Planning for large language model inference, verified with Verus.

The library decides what a forward pass does: which kernels run, on which
buffers and streams, with which launch geometry, and in which order. It returns
these decisions as data. Ordinary Rust around it owns the device and runs them.

## Layout

`src/` is the verified library.

| Module | What it holds |
|---|---|
| `config` | the model configuration: defaults, model families, validation, reading `config.json` |
| `quant_format`, `preflight` | how a checkpoint is quantized, and whether its tensors suffice |
| `plan`, `ops` | operations, steps and programs; the launch of each kernel |
| `kernels`, `gpu`, `context` | kernel tables, device addresses and weights, the context of a pass |
| `moe` | mixture-of-experts layers: routing, decode and prefill |
| `attention`, `mistral` | latent attention layers, and how a Mistral layer is assembled |
| `ssm` | linear-attention layers, with scalar gates or per-channel decay |
| `nemotron`, `mtp_head` | routed layers of Nemotron models, and the head that drafts tokens |
| `model` | whole forward passes: decode, prefill in one pass, in chunks and in two phases |
| `bytes`, `num`, `text`, `readback` | little-endian bytes, arithmetic, text, values read back from the device |

`tests/` runs the library on concrete values.

`app/` loads checkpoints, builds models and runs plans on a device. Floating point
arithmetic stays there: the library carries such numbers as bit patterns.

## Conventions

- A plan is a `Vec<Step>`. A `Program` also carries the bytes that its uploads read.
- The specification of a planner is a `ProgramView`, or a sequence of steps, that is
  built with the same vocabulary as the plan itself. A contract then says that the
  plan returned is that sequence.
- Properties that span several functions are public proof functions named `lemma_*`.
- Parsing JSON text is left to `serde_json`. The two functions that call it, in
  `config::json`, are the only ones whose contracts are not proved.
