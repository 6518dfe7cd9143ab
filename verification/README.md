# storz-rs

Control of Storz & Bickel vaporizers (Volcano Hybrid, Venty, Veazy, Crafty+) over Bluetooth Low
Energy, with the logic verified by [Verus](https://github.com/verus-lang/verus).

- `src/` is the library. Its functions carry contracts that are proved, and the properties that
  span several functions stand beside them as public proof functions whose names start with
  `law_`. A few small wrappers around outside functions (UTF-8 decoding, lower case, quoting,
  identifiers as text, JSON) say in their contracts what is taken on trust.
- `app/` is the programs around it: `volcano` (command line), `volcano-daemon` (HTTP and a unix
  socket) and `volcano-mcp` (tools over stdio). They do the input and output and decide nothing.
- `tests/` runs the library on concrete values.

## How it fits together

| Module | What it holds |
|---|---|
| `single`, `rounding`, `accuracy` | IEEE single-precision numbers as bit patterns, with integer arithmetic |
| `utils` | temperatures as bytes, Celsius and Fahrenheit, command buffers |
| `device`, `uuids`, `gatt`, `error` | devices, identifiers, characteristics, errors |
| `protocol` | Volcano, Venty/Veazy, Crafty, the simulated device, which model can do what |
| `workflow`, `workflow_laws` | the workflow runner as a state machine, and what holds of its runs |
| `discovery`, `scan`, `detection`, `manager` | finding, telling apart and holding on to a device |
| `http_client`, `daemon`, `requests`, `json` | both sides of the daemon |
| `cli`, `cli_output`, `cli_workflow`, `mcp`, `wait` | the front ends |
| `text`, `shown` | characters, numbers and pieces of texts |

Temperatures are singles by their bit patterns (`single::Single`), because that is what devices
and callers exchange: `Single::from_bits(x.to_bits())` and back.

What alternates with input and output is a state machine: an `advance` function takes in what came
of the last action and gives the next one. The owner of the device performs it.

## Identifiers

The programs read the identifiers of services and characteristics, and the names by which devices
are recognised, from a JSON file: `uuids.json`, or the file that `VOLCANO_UUIDS` names. Its members
are `device_name_prefixes`, `services`, `volcano`, `venty_control` and `crafty`, as in
`app/table.rs`.
