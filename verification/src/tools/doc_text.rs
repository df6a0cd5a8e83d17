//! The bodies of the embedded reference documents, in Markdown. Each body
//! is held in parts of moderate size and assembled on demand.
use vstd::prelude::*;

use crate::text::{owned, push_str};

verus! {

/// The DSL reference. Part 1 of 3.
pub const DSL_REFERENCE_1: &'static str = "# AI .aelm DSL Reference

**Last updated**: 2026-03-24
**Japanese version**: [AI-DSL-Reference](AI-DSL-Reference)

---

## §1 Overview

This document is a reference guide for AI (LLM) to write circuit schematics using the `.aelm` DSL.
It covers DSL syntax, stdlib components, placement hints, drafting rules, and typical circuit patterns.

The Aelm DSL is a **declarative** circuit description language — you describe \"what to connect\" and the layout engine automatically handles placement and routing.

---

## §2 File Structure

Basic structure of a `.aelm` file:

```aelm
// 1. Imports (optional)
use \"stdlib/parts/passive.alib\"
use \"stdlib/parts/semiconductor.alib\"

// 2. Part definitions (local or imported)
part PartName {
    pins { ... }
    symbol: symbol_name
}

// 3. Module definitions (circuits)
module ModuleName {
    ports { ... }
    instances { ... }
    connections { ... }
}
```

### File Types

| Extension | Purpose | Description |
|-----------|---------|-------------|
| `.aelm` | Circuit definition | Contains part + module definitions |
| `.alib` | Parts library | Collection of part definitions (stdlib, etc.) |
| `.astyle` | Stylesheet | Layout customization |
| `.aproj` | Project config | Grid settings, routing config, etc. |

### use Statements (Imports)

```aelm
use \"stdlib/parts/passive.alib\"          // Import from stdlib
use \"my_parts/custom_transistor.alib\"    // Project-relative path
```

You can also define `part` directly in the file without `use` statements.

---

## §3 Part Definition

```aelm
part PartName {
    params {                          // Optional: parameter definitions
        value: Ohm = 10k
    }
    pins {                            // Required: pin definitions
        pin_name: electrical_type @number
    }
    symbol: built_in_symbol_name      // Required: symbol reference
    footprints { ... }                // Optional: for .alib
    metadata { ... }                  // Optional: for .alib
    units { ... }                     // Optional: multi-unit parts
}
```

### units Block (Multi-Unit Parts)

Splits a single physical package into multiple symbols (units). Used for parts such as the LM358 dual op-amp.

```aelm
units {
    Suffix {                          // Identifier (A, B, ...)
        pins: {                       // Explicit symbol-pin -> part-pin map
            symbol_pin_1: part_pin_1
            symbol_pin_2: part_pin_2
        }
        symbol: built_in_symbol_name
    }
}
```

The binding order must mirror the symbol template's own pin order. An instance `U1: Part` is drawn as `U1A`, `U1B`, .... Every part pin must belong to exactly one unit; mapping the same part pin under multiple units is rejected with `E-UNITS-DUPLICATE-PIN-ASSIGNMENT`. Shared rails (VCC/GND) are expressed via a dedicated power-block unit (#138).

The legacy `pins: [p1, p2, ...]` array form is still accepted for backward compatibility but emits a `W-UNITS-LEGACY` warning. Prefer the mapping form above for new code.

### electrical_type

| Type | Meaning | Example Usage |
|------|---------|---------------|
| `input` | Input pin | Transistor B (base), op-amp IN |
| `output` | Output pin | Transistor C (collector), op-amp OUT |
| `passive` | Passive pin | Resistor/capacitor terminals, transistor E |
| `power` | Power pin | VCC, GND, op-amp power pins |

### Built-in Symbols

| Symbol Name | Component Type | Pins | Description |
|------------|---------------|------|-------------|
| `resistor` | Resistor etc. | 2 | Generic 2-terminal symbol (zigzag) |
| `capacitor` | Capacitor | 2 | Parallel lines symbol |
| `inductor` | Inductor | 2 | Coil symbol |
| `diode` | Diode | 2 | Triangle + line symbol |
| `led` | LED | 2 | Diode + arrows |
| `zener` | Zener | 2 | Diode + Z-line |
| `transistor_npn` | NPN | 3 | BJT NPN symbol |
| `transistor_pnp` | PNP | 3 | BJT PNP symbol |
| `transistor_nmos` | NMOS | 3 | N-ch MOSFET symbol |
| `transistor_pmos` | PMOS | 3 | P-ch MOSFET symbol |
| `op_amp` | Op-amp | 5 | Triangle (INP/INM/OUT/VCC/VEE) |
| `op_amp_signal` | Op-amp (signal-only) | 3 | Triangle without supply stubs. For `units{}` split (#138) |
| `op_amp_power` | Op-amp power block | 2 | Rectangle, VCC top / VEE bottom. For `units{}` split (#138) |
| `crystal` | Crystal | 2 | Crystal symbol |

---

## §4 Module Definition

```aelm
module ModuleName {
    ports {
        port_name: electrical_type direction
    }
    instances {
        InstanceName: PartType(param: value) place: (...) rot: N
    }
    connections {
        Instance1.pin -> Instance2.pin
    }
}
```

### ports Block

Define external connection points of the module.

```aelm
ports {
    VCC: power inout      // Power port
    GND: passive inout    // Ground port
    IN: input in          // Input port
    OUT: output out       // Output port
}
```

direction: `in` | `out` | `inout`

### instances Block

Create instances of parts.

```aelm
instances {
    R1: Resistor                           // Default placement
    R2: Resistor(value: 4.7k)             // With parameter
    Q1: NPN place: (5, 8)                 // Absolute placement
    RE2: Resistor place: Q2.e(0, 4) rot: 90  // Pin-relative + rotation
}
```

### connections Block

Define connections between pins.

```aelm
connections {
    R1.a -> R2.b              // Basic connection
    Q1.c -> Q2.b              // Between different instances
    VCC -> RC1.a              // Connection to port
    Q1.e -> GND               // Connection to ground
}
```

### Module Instantiation (Hierarchical Design)

Modules can be instantiated just like parts. Their `ports` act as pins.

```aelm
// Sub-module definition
module Amplifier {
    ports {
        inp: passive in
        out: passive out
        vcc: power in
        gnd: power in
    }
    instances {
        Q1: NPN
        R_LOAD: Resistor(value: 10k)
    }
    connections {
        inp -> Q1.b
        vcc -> R_LOAD.a
        R_LOAD.b -> Q1.c
        Q1.c -> out
        Q1.e -> gnd
    }
}

// Instantiate in parent module
module MainBoard {
    instances {
        AMP1: Amplifier place: (5, 8)     // Use module like a part
        AMP2: Amplifier place: (15, 8)
        R_COUPLING: Resistor place: (10, 8)
    }
    connections {
        AMP1.out -> R_COUPLING.a          // Connect via ports
        R_COUPLING.b -> AMP2.inp
    }
}
```

**Rendering**: Module instances appear as rectangular blocks with port pins. Pin placement follows port direction (in → left, out → right, power → top/bottom).

**Constraints**:
- Maximum nesting depth: 3 levels
- Circular and self-references are forbidden
- Same-file module references are the primary use case (cross-file via `use` is a future extension)

---

## §5 Placement Hints

### place: (x, y) — Absolute Grid Coordinates

```aelm
Q1: NPN place: (5, 8)    // Place at grid coordinate (5, 8)
```

### place: Instance.pin(dx, dy) — Pin-Relative Placement

```aelm
RE2: Resistor place: Q2.e(0, 4)    // Place at Q2's e pin + offset (0, +4)
RC1: Resistor place: Q1.c(0, -4)   // Place at Q1's c pin + offset (0, -4)
```

### mirror: — Mirror (Flip)

```aelm
Q2: PNP place: (12, 5) mirror: horizontal   // Flip left-right
Q3: NPN place: (19, 5) mirror: vertical      // Flip up-down
```

| Value | Description |
|-------|-------------|
| `horizontal` | Horizontal flip (negate X coordinates) |
| `vertical` | Vertical flip (negate Y coordinates) |

**Transform order**: Mirror THEN Rotate (same as KiCad). `mirror: horizontal rot: 90` mirrors first, then rotates 90 degrees.

### rot: — Rotation

```aelm
RE2: Resistor place: Q2.e(0, 4) rot: 90   // 90-degree rotation (vertical)
```

| Value | Description |
|-------|-------------|
| `0` | No rotation (default, horizontal) |
| `90` | 90 degrees clockwise (vertical) |
| `180` | 180 degrees (horizontal, reversed) |
| `270` | 270 degrees clockwise |

### anchor: — Anchor Pin

```aelm
RE2: Resistor place: Q2.e(0, 4) anchor: a   // Place using pin a as anchor
```

### lock: — Layout Lock Level

Controls how aggressively the layout engine is allowed to move this instance.
Lock state lives in the `.aelm` source because it is structural, not visual.

```aelm
R1: Resistor place: (5, 3) lock: layout_locked
```

| Value | Behaviour |
|-------|-----------|
| `unlocked` (default) | Force-directed layout and grid snap apply normally |
| `group_locked` | Relative positions within a group are preserved |
| `layout_locked` | Absolute position is preserved; routing may still move |
| `route_locked` | Routing segments are locked in addition to layout |
| `full_locked` | Completely immutable |

Omit the hint entirely for `unlocked`. `apply-lock <file> <instance> unlocked`
removes the hint instead of writing a redundant annotation.

### expand: — Multi-unit expansion toggle (#139)

Controls whether a multi-unit part (one with a `units {}` block) expands into per-unit symbols or renders as a single package-level symbol.

```aelm
";

/// The DSL reference. Part 2 of 3.
pub const DSL_REFERENCE_2: &'static str = "U1: LM358                   // Default: render as a single package symbol
U2: LM358 expand: true      // Split into U2A + U2B + U2_PWR
U3: LM358 expand: false     // Explicit package form (same as default)
```

| Value | Behaviour |
|-------|-----------|
| omitted (None) | Render one package-level symbol (default) |
| `true` | Split into per-unit symbols |
| `false` | Render one package-level symbol (same as None) |

### nc: — No-Connect annotation (#186)

Marks pins as intentionally unconnected; suppresses DRC-E001 (unconnected pin) and DRC-W001 (floating bidirectional) for the marked pins.

```aelm
ANT1: AntennaMonopole place: (0, 0) nc: all          // All pins intentionally unconnected
U1: LM358 nc: [A_IN+, A_IN-]                         // Only these two pins are NC
```

| Syntax | Meaning |
|--------|---------|
| `nc: all` | All pins on this instance are intentionally unconnected |
| `nc: [pin1, pin2, ...]` | Only the listed pins are intentionally unconnected |
| omitted | No suppression; unconnected pins produce DRC-E001 |

**Use cases**: Gallery / showcase files where parts are displayed without wiring; IC inputs intentionally left floating.

### Per-unit placement block (#137)

Append `{ Suffix: hints ... }` to a multi-unit instance to override `place:` / `rot:` / `mirror:` / `lock:` per unit. Units not listed inherit the parent instance's hints.

```aelm
U1: LM358 {
    A:    place: (0, 0)
    B:    place: (0, 10) rot: 180
    _PWR: place: (10, 5)
}
```

### Coordinate System

- **Origin**: Top-left
- **X-axis**: Positive to the right
- **Y-axis**: Positive downward
- **1 grid unit**: 2.54mm (0.1 inch)
- **Coordinate values**: Integers (grid units)

---

## §5.5 Custom Symbols (`symbol {}` block)

If a part needs a body shape not covered by the 35 built-ins, declare it inline with a `symbol {}` block alongside `part` and `module`. The block lives at the top level of a `.alib` or `.aelm` file. Seven draw primitives map 1-to-1 with the internal `DrawCommand` enum: `line`, `rect`, `circle`, `arc`, `polyline`, `filled_polygon`, `text`.

```aelm
symbol MyZigResistor {
    pins {
        p1: (-0.5, 0) direction: left  pin_length: 0.5
        p2: ( 0.5, 0) direction: right pin_length: 0.5
    }
    draw {
        line (-0.5, 0) -> (0.5, 0)
        polyline (-0.5, 0) (-0.3, 0.2) (-0.1, -0.2) (0.1, 0.2) (0.3, -0.2) (0.5, 0)
    }
    label_anchor: (0, -0.8) anchor: center
}

part CustomResistor {
    pins { p1: passive @1  p2: passive @2 }
    symbol: MyZigResistor
}
```

**Pin convention (same as built-ins)**: `direction` is outward (away from the body), `position` is where the pin meets the body, and `pin_length` extends the stub. The wire endpoint `position + direction × pin_length` must land on an integer grid (`E_SYM_003`).

**Validation codes**: `E_SYM_002` duplicate position, `E_SYM_003` off-grid stub tip, `E_SYM_004` duplicate pin name, `E_SYM_005` empty draw block, `E_SYM_006` empty pins block, `E_SYM_007` built-in name collision, `E_SYM_008` duplicate symbol name; `W_SYM_001` pin outside bbox, `W_SYM_002` only one draw command.

See the public wiki page [Custom Symbol Authoring](https://github.com/alphaelements/aelm/wiki/en-Symbol-Authoring) for the full reference.

---

## §6 Standard Library Catalog

### passive.alib

| Part | Pins | Parameters | Symbol |
|------|------|-----------|--------|
| Resistor | p1(passive), p2(passive) | value: Ohm = 10k | resistor |
| Capacitor | p1(passive), p2(passive) | value: Farad = 100n | capacitor |
| Inductor | p1(passive), p2(passive) | value: Henry = 10u | inductor |

### semiconductor.alib

| Part | Pins | Symbol |
|------|------|--------|
| NPN | b(input), c(output), e(passive) | transistor_npn |
| PNP | b(input), c(output), e(passive) | transistor_pnp |
| NMOS | g(input), d(output), s(passive) | transistor_nmos |
| PMOS | g(input), d(output), s(passive) | transistor_pmos |
| Diode | a(passive), k(passive) | diode |
| LED | a(passive), k(passive) | led |
| Zener | a(passive), k(passive) | zener |

**Note**: stdlib Resistor/Capacitor/Inductor pin names are `p1`/`p2`. If you define them locally with `a`/`b`, be careful about pin name mismatches.

### power.alib

| Part | Pin | Symbol | Description |
|------|-----|--------|-------------|
| VCC | pin(passive) | power_flag | Power supply flag (T-bar) |
| VDD | pin(passive) | power_flag | Power supply flag (T-bar) |
| POWER | pin(power) | power_arrow | Power supply arrow |
| GND | pin(passive) | gnd_flag | Signal ground (three lines) |
| CGND | pin(passive) | gnd_triangle | Chassis ground (▽) |
| EGND | pin(passive) | gnd_earth | Earth ground (hatch lines) |
| PGND | pin(passive) | gnd_protective | Protective earth (circle + earth) |

**Power symbol labels**: The instance name is displayed as the net name label. Example: `VCC1: VCC` → displays \"VCC1\".

---

## §7 Transistor Pin Layout

### NPN/PNP (R0 — Default)

```
       C (output, upper-right)
       |
  B ───┤  (input, left)
       |
       E (passive, lower-right)
```

- B (Base): Left side, input
- C (Collector): Upper-right, output
- E (Emitter): Lower-right, passive

### NMOS/PMOS (R0 — Default)

```
       D (output, upper-right)
       |
  G ───┤  (input, left)
       |
       S (passive, lower-right)
```

- G (Gate): Left side, input
- D (Drain): Upper-right, output
- S (Source): Lower-right, passive

**Important**: Transistors/MOSFETs are R0-fixed (DR-013, DR-014). Do not specify `rot:` for these components.

---

## §8 Drafting Rules Checklist

Check these drafting rules when writing circuits (see [BD-Layout §12](../Specification/BD-Layout#12-製図規則-bd-lay-013-iec-61082-準拠) for details):

- [ ] Signal flow is left-to-right (DR-001)
- [ ] Power at top, GND at bottom (DR-002)
- [ ] Transistors/MOSFETs/op-amps/ICs are R0-fixed (DR-013~016)
- [ ] Resistors/capacitors use R0 (horizontal) or R90 (vertical) only (DR-010, 011)
- [ ] VCC/GND ports are defined
- [ ] All pins are connected (no floating pins)

---

## §8.5 DRC Rule Reference

All DRC rules detected by `aelm check`. Errors cause build failure (exit 1), Warnings are informational (exit 0).

### Errors (Circuit Errors)

| Code | Category | Description |
|------|----------|-------------|
| DRC-E001 | Unconnected | Pin is not connected to any net |
| DRC-E002 | Power/GND | Power pin not connected to power net |
| DRC-E003 | Power/GND | Ground pin not connected to GND net |
| DRC-E004 | Type mismatch | Output-to-output short circuit (same net) |
| DRC-E005 | Unconnected | Input pin has no driver (undriven input) |
| DRC-E006 | Unconnected | OpenCollector pin without pull-up resistor |

### Warnings (Quality Warnings)

| Code | Category | Description |
|------|----------|-------------|
| DRC-W001 | Unconnected | Floating bidirectional pin |
| DRC-W002 | Power/GND | Power net has no power source (Power pin) |
| DRC-W003 | Type mismatch | OpenCollector + Output combination (pull-up recommended) |
| DRC-W004 | Unconnected | NoConnect pin has connections |
| DRC-W005 | Naming | Similar labels differing only in case (port/net names) |
| DRC-W006 | Parameters | Missing required parameter value |
| DRC-E007 | Naming | Duplicate instance name within a module |

### DrcConfig Control

Individual rule groups can be disabled in `.aproj`:

```json
{
  \"drc\": {
    \"check_unconnected\": true,
    \"check_power\": true,
    \"check_type_mismatch\": true,
    \"check_naming\": true,
    \"check_params\": true
  }
}
```

### DRC Suppression Comments (`// drc-ignore:`)

Suppress specific DRC warnings/errors for individual instances.

#### Scope

- **Per-instance**: Suppression applies only to the instance declaration **immediately following** the comment
- No module-wide or file-wide suppression
- Each instance requires its own `// drc-ignore:` comment

#### Syntax

Two placement options:

```aelm
// Option 1: On the preceding line
// drc-ignore: DRC-E001
R1: Resistor

// Option 2: Inline comment on the same line
R1: Resistor  // drc-ignore: DRC-E001
```

- Space required between `//` and `drc-ignore:`
- Code names are case-insensitive (`drc-e001` is valid)
- Multiple codes separated by commas

#### Examples

```aelm
// Intentionally unconnected test point
// drc-ignore: DRC-E001
TP1: TestPoint

// Intentionally connected NoConnect pin (debug use)
// drc-ignore: DRC-W004
U1: IC

// Suppress multiple DRC codes at once
// drc-ignore: DRC-E001, DRC-E005
R_UNUSED: Resistor
```

#### Available Codes

All codes listed in §8.5 DRC Rule Reference (DRC-E001~E007, DRC-W001~W006) can be specified.

#### Notes

- The suppression comment must be on the line **immediately before** the instance declaration (blank lines in between make it ineffective)
- Suppression for connections in the `connections` block is not supported (instance-level only)
- Suppressed errors are not shown in CLI output

See [BD-DRC Specification](../Specification/BD-DRC) for full details.

---

## §9 Typical Circuit Patterns

### 9.1 Constant-Current Source

";

/// The DSL reference. Part 3 of 3.
pub const DSL_REFERENCE_3: &'static str = "**Overview**: Constant-current source using 2 NPN transistors + 4 resistors. Ic = VBE(Q1) / RE2 ≈ 0.6V / RE2

```aelm
// Constant-current source circuit
// Ic = VBE(Q1) / RE2 ≈ 0.6V / RE2

part NPN {
    pins {
        b: input @1
        c: output @2
        e: passive @3
    }
    symbol: transistor_npn
}

part Resistor {
    pins {
        a: passive @1
        b: passive @2
    }
    symbol: resistor
}

module ConstantCurrentSource {
    ports {
        VCC: power inout
        GND: passive inout
    }
    instances {
        Q1: NPN place: (5, 8)
        Q2: NPN place: (14, 8)
        RC1: Resistor place: Q1.c(0, -4) rot: 90
        RC2: Resistor place: Q2.c(0, -4) rot: 90
        Rb: Resistor place: Q1.b(-4, 0) rot: 90
        RE2: Resistor place: Q2.e(0, 4) rot: 90
    }
    connections {
        VCC -> RC1.a
        RC1.b -> Q1.c
        VCC -> RC2.a
        RC2.b -> Q2.c
        Q1.c -> Q2.b
        Q1.b -> Rb.a
        Rb.b -> Q2.e
        Q1.e -> GND
        Q2.e -> RE2.a
        RE2.b -> GND
    }
}
```

**How it works**:
1. RC1, RC2 are collector pull-up resistors (connection to VCC)
2. Q1's collector output drives Q2's base
3. Rb is Q1's base bias resistor (Q1.b → 0.6V node)
4. RE2 is the emitter resistor (0.6V node → GND)
5. VBE(Q1) = 0.6V determines the 0.6V node potential
6. Constant current Ic = 0.6V / RE2

### 9.2 (To Be Added)

- LED driver circuit
- Differential pair
- Feedback amplifier
- CMOS inverter

---

## §10 Common Mistakes

### 10.1 Missing VCC/GND Ports

```aelm
// BAD: No ports defined
module Bad {
    instances { R1: Resistor }
    connections { ... }
}

// GOOD: Ports defined
module Good {
    ports {
        VCC: power inout
        GND: passive inout
    }
    instances { R1: Resistor }
    connections { R1.a -> VCC; R1.b -> GND }
}
```

### 10.2 Pin Name Mismatch

stdlib Resistor uses `p1`/`p2`, while local definitions may use `a`/`b`. Be careful not to mix them.

```aelm
// When using stdlib Resistor via use: p1, p2
use \"stdlib/parts/passive.alib\"
// → R1.p1, R1.p2

// When defining Resistor locally: a, b
part Resistor { pins { a: passive @1; b: passive @2 } ... }
// → R1.a, R1.b
```

### 10.3 Specifying rot: on Transistors

```aelm
// BAD: NPN is R0-fixed
Q1: NPN place: (5, 5) rot: 90

// GOOD: No rotation
Q1: NPN place: (5, 5)
```

### 10.4 Missing Components

It's easy to omit resistors in circuit descriptions. Carefully check the reference image and include all components.
Example: Missing collector pull-up resistors, base bias resistors.

### 10.5 Missing Connections

Ensure all pins are connected to something. `aelm check` will warn about unconnected pins.
";

/// The DSL reference.
pub open spec fn dsl_reference_text() -> Seq<char> {
    DSL_REFERENCE_1@ + DSL_REFERENCE_2@ + DSL_REFERENCE_3@
}

/// The DSL reference.
pub fn dsl_reference() -> (r: String)
    ensures
        r@ == dsl_reference_text(),
{
    let mut r = owned(DSL_REFERENCE_1);
    push_str(&mut r, DSL_REFERENCE_2);
    push_str(&mut r, DSL_REFERENCE_3);
    r
}

/// The CLI reference. Part 1 of 2.
pub const CLI_REFERENCE_1: &'static str = "# AI aelm CLI Reference

**Last updated**: 2026-04-08
**Japanese version**: [AI-CLI-Reference](AI-CLI-Reference)

---

## §1 Overview

The `aelm` CLI is Aelm's **native command-line tool**. It enables circuit validation, formatting, and export without the VSCode extension.

**Primary use cases**:
- Syntax checking and DRC validation of circuit files
- Schematic export to SVG/PNG formats
- Automated export in CI/CD pipelines
- JSON dump of layout results (for debugging)

---

## §2 Build

```bash
# Development build
cargo build -p aelm-cli

# Release build
cargo build -p aelm-cli --release

# Install
cargo install --path crates/aelm-cli
```

The resulting binary name is `aelm`.

---

## §3 Subcommands

### §3.1 export-svg — SVG Export

```
aelm export-svg <INPUT> [-o <OUTPUT>] [--grid] [--module <NAME>] [--style <ASTYLE>]
```

| Argument | Type | Default | Description |
|----------|------|---------|-------------|
| `INPUT` | path | (required) | Input `.aelm` file |
| `-o, --output` | path | `<INPUT>.svg` | Output file path |
| `--grid` | flag | false | Include grid overlay |
| `--module` | string | first module | Target module name |
| `-s, --style` | path | auto-detect | `.astyle` stylesheet (see §7.2) |

**Examples**:
```bash
aelm export-svg circuit.aelm                        # → circuit.svg
aelm export-svg circuit.aelm -o out.svg --grid       # With grid
aelm export-svg circuit.aelm --module MyModule       # Specific module
aelm export-svg circuit.aelm --style dark.astyle     # Custom style
```

### §3.2 export-png — PNG Export

```
aelm export-png <INPUT> [-o <OUTPUT>] [--dpi <DPI>] [--grid] [--module <NAME>] [--style <ASTYLE>]
```

| Argument | Type | Default | Description |
|----------|------|---------|-------------|
| `INPUT` | path | (required) | Input `.aelm` file |
| `-o, --output` | path | `<INPUT>.png` | Output file path |
| `--dpi` | integer | 300 | Resolution (DPI) |
| `--grid` | flag | false | Include grid overlay |
| `--module` | string | first module | Target module name |
| `-s, --style` | path | auto-detect | `.astyle` stylesheet (see §7.2) |

**Note**: Requires `png-export` feature (enabled by default). Returns exit code 2 if unavailable.

**Examples**:
```bash
aelm export-png circuit.aelm --dpi 600               # High-resolution PNG
aelm export-png circuit.aelm -o preview.png --grid    # Preview with grid
aelm export-png circuit.aelm --style dark.astyle      # Custom style
```

### §3.3 check — Syntax Check + DRC

```
aelm check <INPUT>
```

| Argument | Type | Default | Description |
|----------|------|---------|-------------|
| `INPUT` | path | (required) | Input `.aelm` file |

**Output**: rustc-style diagnostics on stderr + summary line.

**Examples**:
```bash
aelm check circuit.aelm
# Output example:
# 0 error(s), 0 warning(s)

aelm check bad_circuit.aelm
# Output example:
# error[E001]: unknown part type 'Resistr'
#  --> bad_circuit.aelm:3:13
# 1 error(s), 0 warning(s)
```

### §3.4 fmt — Source Formatting

```
aelm fmt <INPUT> [--check]
```

| Argument | Type | Default | Description |
|----------|------|---------|-------------|
| `INPUT` | path | (required) | Input `.aelm` file |
| `--check` | flag | false | Check only (no file modification) |

**Examples**:
```bash
aelm fmt circuit.aelm            # Format and overwrite
aelm fmt circuit.aelm --check    # Check only (for CI)
```

### §3.5 parse — Parse Result Dump

```
aelm parse <INPUT>
```

JSON output to stdout:
```json
{
  \"parts\": [...],
  \"modules\": [...],
  \"diagnostics\": [...]
}
```

**Examples**:
```bash
aelm parse circuit.aelm | jq '.modules[0].instances'
```

### §3.6 layout — Layout Result Dump

```
aelm layout <INPUT> [--module <NAME>]
```

JSON output to stdout:
```json
{
  \"layout\": { \"components\": [...], \"bounds\": {...} },
  \"routing\": { \"wires\": [...], \"labels\": [...], \"junctions\": [...] },
  \"diagnostics\": [...]
}
```

**Examples**:
```bash
aelm layout circuit.aelm | jq '.layout.components[] | {name: .instance_name, pos: .position}'
aelm layout circuit.aelm --module MyModule | jq '.routing.wires | length'
```

---

## §4 Global Options

### Verbosity (-v)

| Flag | Level | Output |
|------|-------|--------|
| (none) | warn | Warnings and errors only |
| `-v` | info | Add informational messages |
| `-vv` | debug | Add debug information |
| `-vvv` | trace | Full trace logging |

### Environment Variables

| Variable | Description |
|----------|-------------|
| `AELM_LOG` | Log level setting (env_logger format) |
| `AELM_STDLIB_PATH` | Explicit stdlib path specification |

---

## §5 Exit Codes

| Code | Meaning | Trigger |
|------|---------|---------|
| 0 | Success | Command completed normally |
| 1 | Input error | Parse error, DRC error, module not found |
| 2 | Argument error | Invalid CLI arguments, feature not enabled |
| 3 | I/O error | File not found, write failure |

---

## §6 Typical Workflows

### Circuit Development

```bash
# 1. Write circuit
vim circuit.aelm

# 2. Syntax check
aelm check circuit.aelm

# 3. Format
aelm fmt circuit.aelm

# 4. SVG preview
aelm export-svg circuit.aelm --grid -o preview.svg
```

### Layout Debugging

```bash
# Check component placement
aelm layout circuit.aelm | jq '.layout.components[] | {name: .instance_name, pos: .position, rot: .rotation}'

# Check routing
aelm layout circuit.aelm | jq '.routing.wires[] | {net: .net_name, segments: (.segments | length)}'

# Check diagnostics
aelm layout circuit.aelm | jq '.diagnostics'
```

### CI/CD Integration

```bash
# CI pipeline example
aelm check circuit.aelm || exit 1
aelm fmt circuit.aelm --check || exit 1
aelm export-svg circuit.aelm -o output.svg
```

### Reverse Sync Debugging (Phase 2)

```bash
# Move component R1 (grid 2, grid 4) — ~(5.08mm, 10.16mm)
aelm apply-move circuit.aelm R1 5.08 10.16
# → Updates circuit.aelm inline hint: R1: Resistor place: (2, 4)

# Change lock level of U1
aelm apply-lock circuit.aelm U1 layout_locked
# → Updates circuit.aelm inline hint: U1: OpAmp lock: layout_locked

# Rotate Q1 by 90 degrees
aelm apply-rotate circuit.aelm Q1 90
# → Updates circuit.aelm inline hint: Q1: NPN rot: 90 (...)

# Mirror U2 horizontally
aelm apply-mirror circuit.aelm U2 horizontal
# → Updates circuit.aelm inline hint: U2: OpAmp mirror: horizontal (...)

# Add a new connection
aelm apply-add-connection circuit.aelm R1.a U1.in
# → Appends to connections block: R1.a -> U1.in

# Reconnect an existing wire endpoint
aelm apply-wire-reconnect circuit.aelm R1.p1 C1.p1
# → Changes R1.p1 to C1.p1 in the connections block

# Delete a connection
aelm apply-delete-connection circuit.aelm R1.p1 R2.p2
# → Removes \"R1.p1 -> R2.p2\" from the connections block

# Verify changes
aelm check circuit.aelm
aelm layout circuit.aelm | jq '.layout.components[] | select(.instance_name == \"R1\") | .position'
```

---

## §6.5 Reverse Sync Debug Commands (Phase 2)

### apply-move — Component Move

```
aelm apply-move <INPUT> <INSTANCE> <X> <Y>
```

| Argument | Type | Description |
|----------|------|-------------|
| `INPUT` | path | Input `.aelm` file |
| `INSTANCE` | string | Instance name (e.g., `R1`) |
| `X` | float | X coordinate in mm (grid-snapped to 2.54mm) |
| `Y` | float | Y coordinate in mm (grid-snapped to 2.54mm) |

Updates the instance's `place:` inline hint in `<INPUT>` (#133). When the
instance has no existing `place:` hint, a new one is inserted; otherwise
the existing hint is updated. The co-located `.astyle` file is not
modified.

### apply-lock — Lock Level Change

```
aelm apply-lock <INPUT> <INSTANCE> <LEVEL>
```

| Argument | Type | Description |
|----------|------|-------------|
| `LEVEL` | string | `unlocked`, `group_locked`, `layout_locked`, `route_locked`, `full_locked` |

Updates the instance's `lock:` inline hint in `<INPUT>` (#133). `unlocked`
removes the hint. The co-located `.astyle` file is not modified.

### apply-rotate — Component Rotation

```
aelm apply-rotate <INPUT> <INSTANCE> <DEGREES>
```

| Argument | Type | Description |
|----------|------|-------------|
| `DEGREES` | integer | `0`, `90`, `180`, `270` |

Updates the `.aelm` file's `rot:` inline hint via CST edit.

### apply-mirror — Component Mirror

```
aelm apply-mirror <INPUT> <INSTANCE> <AXIS>
```

| Argument | Type | Description |
|----------|------|-------------|
| `AXIS` | string | `horizontal` or `vertical` |

Updates the `.aelm` file's `mirror:` inline hint via CST edit.

### apply-wire-reconnect — Reconnect Wire Endpoint

```
aelm apply-wire-reconnect <INPUT> <OLD_PIN> <NEW_PIN>
```

| Argument | Type | Description |
|----------|------|-------------|
| `INPUT` | path | Input `.aelm` file |
| `OLD_PIN` | string | Existing pin reference in `instance.pin` format (e.g., `R1.a`) |
| `NEW_PIN` | string | Replacement pin reference in `instance.pin` format (e.g., `C1.p`) |

Replaces `OLD_PIN` with `NEW_PIN` in the connections block. Returns an error if `OLD_PIN` is not found.

**Examples**:
```bash
aelm apply-wire-reconnect circuit.aelm R1.p1 C1.p1
";

/// The CLI reference. Part 2 of 2.
pub const CLI_REFERENCE_2: &'static str = "# → Changes: \"R1.p1 -> R2.p2\" to \"C1.p1 -> R2.p2\"
```

### apply-add-connection — Add New Wire Connection

```
aelm apply-add-connection <INPUT> <FROM_PIN> <TO_PIN>
```

| Argument | Type | Description |
|----------|------|-------------|
| `INPUT` | path | Input `.aelm` file |
| `FROM_PIN` | string | Source pin reference in `instance.pin` format (e.g., `R1.a`) |
| `TO_PIN` | string | Target pin reference in `instance.pin` format (e.g., `C1.p`) |

Appends a new `FROM_PIN -> TO_PIN` connection line to the connections block without modifying existing connections.

**Examples**:
```bash
aelm apply-add-connection circuit.aelm R1.a U1.in
# → Appends: \"R1.a -> U1.in\" to the connections block
```

### apply-delete-connection — Delete Wire Connection

```
aelm apply-delete-connection <INPUT> <FROM_PIN> <TO_PIN>
```

| Argument | Type | Description |
|----------|------|-------------|
| `INPUT` | path | Input `.aelm` file |
| `FROM_PIN` | string | Source pin reference in `instance.pin` format (e.g., `R1.p1`) |
| `TO_PIN` | string | Target pin reference in `instance.pin` format (e.g., `C1.p2`) |

Removes the line `FROM_PIN -> TO_PIN` from the connections block in the `.aelm` file. Returns an error if the connection is not found.

**Examples**:
```bash
aelm apply-delete-connection circuit.aelm R1.p1 R2.p2
# → Removes: \"R1.p1 -> R2.p2\" from the connections block
```

---

## §7 Project Configuration

### .aproj Auto-Detection

Walks parent directories of the input file upward to find the first `.aproj` file and loads it as project configuration.

```
project/
├── project.aproj      ← Auto-detected
├── stdlib/
│   └── parts/
└── circuits/
    └── amplifier.aelm  ← Input file
```

### §7.2 .astyle Stylesheet Loading Order

When `--style` is not specified for `export-svg` / `export-png`, stylesheets are auto-detected:

1. Co-located `.astyle` file with the same name (e.g., `circuit.aelm` → `circuit.astyle`)
2. `stdlib/themes/default.astyle` (resolved via stdlib path)
3. If neither found, no stylesheet (hardcoded defaults)

```bash
# Explicit (highest priority)
aelm export-png circuit.aelm --style mytheme.astyle

# Auto-detect (uses circuit.astyle if in same directory)
aelm export-png circuit.aelm

# See AI-Style-Reference for stylesheet syntax details
```

> For stylesheet syntax, selectors, and properties, see [AI-Style-Reference.en](AI-Style-Reference.en).

### stdlib Path Resolution Order

1. If `.aproj` found: `<aproj_dir>/stdlib/parts/`
2. `AELM_STDLIB_PATH` environment variable
3. Binary-relative: `<binary_dir>/../stdlib/parts/`
4. Fallback: `./stdlib/parts/`
";

/// The CLI reference.
pub open spec fn cli_reference_text() -> Seq<char> {
    CLI_REFERENCE_1@ + CLI_REFERENCE_2@
}

/// The CLI reference.
pub fn cli_reference() -> (r: String)
    ensures
        r@ == cli_reference_text(),
{
    let mut r = owned(CLI_REFERENCE_1);
    push_str(&mut r, CLI_REFERENCE_2);
    r
}

/// The stylesheet (`.astyle`) reference. Part 1 of 1.
pub const STYLE_REFERENCE_1: &'static str = "# AI .astyle Stylesheet Reference

**Last updated**: 2026-03-25
**Japanese version**: [AI-Style-Reference](AI-Style-Reference)

---

## §1 Overview

`.astyle` files are CSS-like stylesheets that customize the visual appearance of circuit schematics.
They are independent of the circuit structure (`.aelm`) and control colors, stroke widths, opacity, and backgrounds.

### Loading Priority

1. CLI `--style` explicit path
2. Auto-discovered `.astyle` file with the same name as the `.aelm` file (e.g., `circuit.aelm` → `circuit.astyle`)
3. `stdlib/themes/default.astyle` (fallback)

The VSCode extension also auto-applies a co-located `.astyle` file.

---

## §2 Basic Syntax

```astyle
// Line comment
/* Block comment */

// Pseudo-element selector (lowercase keyword)
background { color: #fffacd; }

wire {
    color: #ff0000;
    width: 0.5mm;
}

// Universal selector
* {
    stroke_color: #000000;
    stroke_width: 0.25mm;
}

// Type selector (PascalCase required — matches part name)
Resistor {
    stroke_color: #0000ff;
    fill_color: #cce0ff;
}

// Id selector (matches instance name)
#R1 {
    stroke_color: #ff0000;
    opacity: 0.6;
}
```

### Rules

- Properties use `name: value;` syntax (semicolon required)
- Colors: `#RRGGBB` or `#RRGGBBAA` (8-digit for alpha)
- Lengths: `<number>mm` (e.g., `0.25mm`)
- Multiple properties per rule block `{ }`

---

## §3 Selectors

### Types and Specificity

| Priority | Selector | Syntax | Matches | Example |
|:--------:|----------|--------|---------|---------|
| 100 | Id | `#name` | Instance name | `#R1 { }` |
| 10 | Type | `TypeName` | Part name (PascalCase required) | `Resistor { }` |
| 10 | Pseudo | `keyword` | Schematic structural elements | `wire { }` |
| 1 | Universal | `*` | All components | `* { }` |

Same-priority rules: later definition wins.

### Type Selector Notes

- **Must start with an uppercase letter (PascalCase)**. Lowercase names are interpreted as pseudo-elements
- Matches the `part` definition name in `.aelm` (`Resistor`, `NPN`, etc.)
- Does NOT match symbol template names (`resistor`, `transistor_npn`)

---

## §4 Pseudo-Elements

| Pseudo-Element | Target | Available Properties |
|----------------|--------|---------------------|
| `background` | Canvas background | `color` |
| `grid` | Grid lines | `color`, `sub_color`, `visible` |
| `wire` | Wires | `color`, `width` |
| `bus` | Bus wires | `color`, `width` |
| `text` | Text labels | `font_color`, `font_size` |
| `pin` | Pin stubs | `stroke_color`, `stroke_width` |
| `net_label` | Net labels | `font_color`, `font_size` |
| `error` | DRC error overlay | `color`, `font_size` |

---

## §5 Property Reference

### Component Properties (`*`, Type, Id selectors)

| Property | Type | Default | Description |
|----------|------|---------|-------------|
| `stroke_color` | `#RRGGBB` | `#000000` | Stroke color |
| `stroke_width` | `<n>mm` | `0.25mm` | Stroke width |
| `fill_color` | `#RRGGBBAA` | `#00000000` | Fill color (transparent by default) |
| `opacity` | `0.0-1.0` | `1.0` | Opacity (applied to alpha channel) |

### Text Properties (`text` pseudo-element or component)

| Property | Type | Default | Description |
|----------|------|---------|-------------|
| `font_size` | `<n>mm` | `1.27mm` | Font size |
| `font_color` | `#RRGGBB` | `#000000` | Text color |

Label color cascade: component style > `text` pseudo-element > default black.

### Wire Properties

| Pseudo-Element | `color` Default | `width` Default |
|----------------|-----------------|-----------------|
| `wire` | `#006400` (dark green) | `0.25mm` |
| `bus` | `#00008B` (dark blue) | `0.5mm` |

### Grid Properties

| Property | Default | Description |
|----------|---------|-------------|
| `color` | `#DCDCDC` | Main grid line color |
| `sub_color` | `#F0F0F0` | Subdivision grid color |
| `visible` | `true` | Set `false` to hide grid |

---

## §6 Value Types

| Type | Syntax | Examples |
|------|--------|----------|
| Color | `#RRGGBB` / `#RRGGBBAA` | `#ff0000`, `#00000080` |
| Length | `<number>mm` | `0.25mm`, `1.5mm` |
| Boolean | `true` / `false` | `true` |
| Number | integer or float | `90`, `0.5` |
| Tuple | `(x, y)` | `(5.08, 7.62)` |
| String | `\"text\"` | `\"sans-serif\"` |

---

## §7 Cascade (Resolution Order)

Styles are resolved in this order (later overrides earlier):

```
Default values (hardcoded)
    ↓ overridden by
Universal selector (*) properties
    ↓ overridden by
Type selector (Resistor) properties
    ↓ overridden by
Id selector (#R1) properties
```

Example: With `Resistor { stroke_color: #0000ff; }` and `#R1 { stroke_color: #ff0000; }`:
- R1 renders red (Id selector wins)
- R2 renders blue (Type selector applies)

---

## §8 Complete Example

```astyle
// Dark theme style

background { color: #1e1e1e; }

grid {
    color: #333333;
    sub_color: #2a2a2a;
    visible: true;
}

* {
    stroke_color: #cccccc;
    stroke_width: 0.25mm;
}

text {
    font_size: 1.27mm;
    font_color: #e0e0e0;
}

wire {
    color: #00cc66;
    width: 0.3mm;
}

bus {
    color: #6699ff;
    width: 0.5mm;
}

pin {
    stroke_color: #999999;
    stroke_width: 0.15mm;
}

error {
    color: #ff4444;
    font_size: 1.0mm;
}

// Blue resistors, green capacitors
Resistor {
    stroke_color: #4488ff;
    fill_color: #1a2a4a;
}

Capacitor {
    stroke_color: #44cc44;
}

NPN {
    stroke_color: #cc88ff;
    stroke_width: 0.35mm;
}

// Highlight a specific instance
#R1 {
    stroke_color: #ff8800;
    stroke_width: 0.5mm;
    opacity: 0.9;
}
```

---

## §9 Default Theme

Contents of `stdlib/themes/default.astyle`:

```astyle
background { color: #ffffff; }
grid { color: #dcdcdc; sub_color: #f0f0f0; visible: true; }
* { stroke_color: #000000; stroke_width: 0.25mm; fill_color: #00000000; opacity: 1.0; }
text { font_size: 1.27mm; font_color: #000000; }
wire { color: #006400; width: 0.25mm; }
bus { color: #00008b; width: 0.5mm; }
pin { stroke_color: #000000; stroke_width: 0.15mm; }
error { color: #ff4444; font_size: 1.0mm; }
```

---

## §10 CLI Usage

```bash
# Export PNG with custom style
aelm export-png circuit.aelm --style dark-theme.astyle -o output.png --grid

# Auto-discover co-located .astyle (uses circuit.astyle if it exists)
aelm export-svg circuit.aelm -o output.svg

# Default theme only (uses stdlib/themes/default.astyle if no .astyle found)
aelm export-png circuit.aelm -o output.png
```
";

/// The stylesheet (`.astyle`) reference.
pub open spec fn style_reference_text() -> Seq<char> {
    STYLE_REFERENCE_1@
}

/// The stylesheet (`.astyle`) reference.
pub fn style_reference() -> (r: String)
    ensures
        r@ == style_reference_text(),
{
    let mut r = owned(STYLE_REFERENCE_1);
    r
}

/// Common circuit patterns. Part 1 of 2.
pub const CIRCUIT_PATTERNS_1: &'static str = "> 📖 [日本語版はこちら](ja-Circuit-Patterns)

# Circuit Patterns

## 1. Overview

This guide presents common electronic circuit patterns as complete, runnable AELM DSL code. Each pattern includes part definitions, module wiring, and the key design equations so you can copy, adapt, and learn.

All examples are self-contained -- paste any block into a `.aelm` file and open it in the AELM editor to see the rendered schematic.

---

## 2. Voltage Divider

A voltage divider produces an output voltage that is a fraction of the input. Two resistors in series divide the supply voltage proportionally.

**Key equation:** `Vout = VCC * R2 / (R1 + R2)`

With equal resistors (R1 = R2 = 10k), the output is exactly half the supply voltage.

```aelm
part Resistor {
    params { value: Ohm = 10k }
    pins { p1: passive @1  p2: passive @2 }
    symbol: resistor
}

part VCC {
    pins { pin: power @1 }
    symbol: power_flag
}

part GND {
    pins { pin: passive @1 }
    symbol: gnd_flag
}

module VoltageDivider {
    instances {
        R1: Resistor(value: 10k) place: (5, 3)
        R2: Resistor(value: 10k) place: (5, 7) rot: 90
        PWR: VCC place: (5, 1)
        GND1: GND place: (5, 11)
    }
    connections {
        PWR.pin -> R1.p1
        R1.p2 -> R2.p1
        R2.p2 -> GND1.pin
    }
}
```

![en-Circuit-Patterns example 0](images/en-Circuit-Patterns_0.svg)

The output voltage is taken at the junction between R1.p2 and R2.p1. Changing the ratio of R1 to R2 changes the output voltage -- for example, R1 = 30k and R2 = 10k gives Vout = VCC / 4.

---

## 3. LED Driver with Current-Limiting Resistor

The simplest practical circuit: a resistor limits the current through an LED to prevent it from burning out.

**Key equation:** `R = (VCC - Vf) / If`

For a typical red LED (Vf = 2.0V, If = 20mA) on a 5V supply: R = (5 - 2) / 0.02 = 150 ohm.

```aelm
part Resistor {
    params { value: Ohm = 150 }
    pins { a: passive @1  b: passive @2 }
    symbol: resistor
}

part LED {
    pins { anode: passive @1  cathode: passive @2 }
    symbol: led
}

part VCC {
    pins { pin: power @1 }
    symbol: power_flag
}

part GND {
    pins { pin: passive @1 }
    symbol: gnd_flag
}

module LedDriver {
    instances {
        R1: Resistor(value: 150) place: (5, 3) rot: 90
        D1: LED place: (5, 7) rot: 90
        PWR: VCC place: (5, 1)
        GND1: GND place: (5, 11)
    }
    connections {
        PWR.pin -> R1.a
        R1.b -> D1.anode
        D1.cathode -> GND1.pin
    }
}
```

![en-Circuit-Patterns example 1](images/en-Circuit-Patterns_1.svg)

Current flows from VCC through R1 (which limits the current), through the LED (anode to cathode), and into ground. Always place the resistor before the LED -- the order does not affect the current but it is conventional to show it on the high side.

---

## 4. Common-Emitter Amplifier

The common-emitter configuration is the most widely used transistor amplifier topology. A base bias resistor sets the operating point, a collector load resistor converts current changes to voltage, and an emitter resistor provides thermal stability.

**Key equations:**
- `Ic ~ (VCC - Vbe) / R_BIAS * hFE` (approximate, depends on bias method)
- `Av ~ -R_LOAD / R_E` (voltage gain with emitter degeneration)

```aelm
part Resistor {
    params { value: Ohm = 10k }
    pins { a: passive @1  b: passive @2 }
    symbol: resistor
}

part NPN {
    pins {
        b: input @1
        c: output @2
        e: passive @3
    }
    symbol: transistor_npn
}

part VCC {
    pins { pin: passive @1 }
    symbol: power_flag
}

part GND {
    pins { pin: passive @1 }
    symbol: gnd_flag
}

module CommonEmitter {
    instances {
        Q1: NPN place: (8, 8)
        R_BIAS: Resistor(value: 100k) place: Q1.b(-3, 0)
        R_LOAD: Resistor(value: 4.7k) place: Q1.c(0, -3) rot: 90
        R_E: Resistor(value: 1k) place: Q1.e(0, 3) rot: 90
        PWR: VCC place: (8, 2)
        GND1: GND place: (8, 14)
    }
    connections {
        // Bias network
        PWR.pin -> R_BIAS.a
        R_BIAS.b -> Q1.b
        // Collector load
        PWR.pin -> R_LOAD.a
        R_LOAD.b -> Q1.c
        // Emitter degeneration
        Q1.e -> R_E.a
        R_E.b -> GND1.pin
    }
}
```

![en-Circuit-Patterns example 2](images/en-Circuit-Patterns_2.svg)

The input signal is applied to R_BIAS.a (AC-coupled in practice). The amplified, inverted output appears at the Q1.c node. R_E provides negative feedback that stabilizes the gain at the cost of reduced amplification.

---

## 5. Constant-Current Source (Current Mirror)

A current mirror uses two matched transistors to copy a reference current. The reference current is set by a resistor on one side, and the mirror transistor reproduces it on the other side regardless of load changes.

**Key equation:** `Ic = Vbe(Q1) / R_E ~ 0.6V / R_E`

```aelm
part NPN {
    pins {
        b: input @1
        c: output @2
        e: passive @3
    }
    symbol: transistor_npn
}

part Resistor {
    pins { a: passive @1  b: passive @2 }
    symbol: resistor
}

part VCC {
    pins { pin: passive @1 }
    symbol: power_flag
}

part GND {
    pins { pin: passive @1 }
    symbol: gnd_flag
}

module CurrentMirror {
    instances {
        Q1: NPN place: (5, 8)
        Q2: NPN place: (14, 8)
        RC1: Resistor place: Q1.c(0, -4) rot: 90
        RC2: Resistor place: Q2.c(0, -4) rot: 90
        RE: Resistor place: Q2.e(0, 4) rot: 180
        VCC1: VCC place: (6, 1)
        VCC2: VCC place: (15, 1)
        GND1: GND place: (6, 11)
        GND2: GND place: (15, 15)
    }
    connections {
        // VCC to collector resistors
        VCC1.pin -> RC1.a
        RC1.b -> Q1.c
        VCC2.pin -> RC2.a
        RC2.b -> Q2.c
        // Mirror connection: Q1 collector drives Q2 base
        Q1.c -> Q2.b
        // Base bias
        Q1.b -> RE.a
        RE.b -> Q2.e
        // Emitter to ground
        Q1.e -> GND1.pin
        Q2.e -> RE.a
        RE.b -> GND2.pin
    }
}
```

![en-Circuit-Patterns example 3](images/en-Circuit-Patterns_3.svg)

Q1 is diode-connected (collector tied to Q2's base). The current through Q1 sets the reference, and Q2 mirrors that current to its collector. The emitter resistor RE improves matching accuracy.

---

## 6. RC Low-Pass Filter

The simplest analog filter: a resistor and capacitor in series. High-frequency signals are attenuated while low-frequency signals pass through.

**Key equation:** `fc = 1 / (2 * pi * R * C)`

For R = 4.7k and C = 100nF: fc = 1 / (2 * 3.14159 * 4700 * 0.0000001) ~ 339 Hz.

```aelm
part Resistor {
    params { value: Ohm = 4.7k }
    pins { a: passive @1  b: passive @2 }
    symbol: resistor
}

part Capacitor {
    params { value: Farad = 100n }
    pins { a: passive @1  b: passive @2 }
    symbol: capacitor
}

part GND {
    pins { pin: passive @1 }
    symbol: gnd_flag
}

module RcLowPass {
    ports {
        inp: input in left.1
        outp: output out right.1
        gnd: passive in bottom.1
    }
    instances {
        R1: Resistor(value: 4.7k) place: (3, 5)
        C1: Capacitor(value: 100n) place: (8, 8) rot: 90
        GND1: GND place: (8, 12)
    }
    connections {
        inp -> R1.a
        R1.b -> C1.a
        R1.b -> outp
        C1.b -> GND1.pin
    }
}
```

![en-Circuit-Patterns example 4](images/en-Circuit-Patterns_4.svg)

The input signal enters through R1. At the junction of R1.b and C1.a, frequencies below the cutoff pass to the output while higher frequencies are shunted to ground through the capacitor. This module uses ports so it can be reused as a sub-circuit in larger designs.

---

## 7. Op-Amp Inverting Amplifier

An operational amplifier with input and feedback resistors forms a precision inverting amplifier. The gain is set entirely by the resistor ratio, independent of the op-amp's own gain.

**Key equation:** `Gain = -Rf / Rin`

With Rin = 10k and Rf = 100k, the voltage gain is -10 (inverted, 10x amplification).

```aelm
part Resistor {
    params { value: Ohm = 10k }
    pins { a: passive @1  b: passive @2 }
    symbol: resistor
}

part OpAmp {
    pins {
        INP: input @1
        INM: input @2
        OUT: output @3
        VCC: power @4
        VEE: power @5
    }
    symbol: op_amp
}

part VCC {
    pins { pin: power @1 }
    symbol: power_flag
}

part GND {
    pins { pin: passive @1 }
    symbol: gnd_flag
}

module InvertingAmplifier {
    ports {
        vin: input in left.1
        vout: output out right.1
        vcc: power in top.1
        gnd: passive in bottom.1
    }
    instances {
        Rin: Resistor(value: 10k) place: (3, 8)
        Rf: Resistor(value: 100k) place: (8, 5)
        U1: OpAmp place: (8, 8)
        PWR: VCC place: (8, 2)
        GND1: GND place: (8, 14)
    }
    connections {
        // Input through Rin to inverting input
        vin -> Rin.a
        Rin.b -> U1.INM
        // Feedback from output back to inverting input
        U1.OUT -> Rf.b
        Rf.a -> U1.INM
        // Non-inverting input to ground (virtual ground)
";

/// Common circuit patterns. Part 2 of 2.
pub const CIRCUIT_PATTERNS_2: &'static str = "        GND1.pin -> U1.INP
        // Power supply
        PWR.pin -> U1.VCC
        GND1.pin -> U1.VEE
        // Output
        U1.OUT -> vout
    }
}
```

![en-Circuit-Patterns example 5](images/en-Circuit-Patterns_5.svg)

The inverting input (INM) is a virtual ground -- the feedback loop forces it to the same voltage as the non-inverting input (INP), which is tied to ground. The input current Vin/Rin must equal the feedback current Vout/Rf, giving the gain formula.

---

## 8. Hierarchical Design -- Reusable Sub-Modules

AELM supports hierarchical design: define a module with ports, then instantiate it in a parent module like any other component. This lets you build complex systems from tested, reusable blocks.

```aelm
part Resistor {
    params { value: Ohm = 10k }
    pins { a: passive @1  b: passive @2 }
    symbol: resistor
}

part NPN {
    pins {
        b: input @1
        c: output @2
        e: passive @3
    }
    symbol: transistor_npn
}

part VCC {
    pins { pin: passive @1 }
    symbol: power_flag
}

part GND {
    pins { pin: passive @1 }
    symbol: gnd_flag
}

// Reusable amplifier stage with defined ports
module Amplifier {
    ports {
        inp: passive in left.1
        out: passive out right.1
        vcc: power in top.1
        gnd: power in bottom.1
    }
    instances {
        Q1: NPN place: (5, 5)
        R_BIAS: Resistor place: Q1.b(-2, 0)
        R_LOAD: Resistor place: Q1.c(0, -2) rot: 90
    }
    connections {
        inp -> R_BIAS.a
        R_BIAS.b -> Q1.b
        vcc -> R_LOAD.a
        R_LOAD.b -> Q1.c
        Q1.c -> out
        Q1.e -> gnd
    }
}

// Top-level design using two Amplifier instances
module MainBoard {
    instances {
        AMP1: Amplifier place: (5, 8)
        AMP2: Amplifier place: (15, 8)
        R_COUPLING: Resistor place: (10, 8)
        PWR: VCC place: (5, 2)
        GND1: GND place: (15, 14)
    }
    connections {
        // Power distribution
        PWR.pin -> AMP1.vcc
        PWR.pin -> AMP2.vcc
        // Signal path: AMP1 -> coupling resistor -> AMP2
        AMP1.out -> R_COUPLING.a
        R_COUPLING.b -> AMP2.inp
        // Ground
        AMP1.gnd -> GND1.pin
        AMP2.gnd -> GND1.pin
    }
}
```

![en-Circuit-Patterns example 6](images/en-Circuit-Patterns_6.svg)

The `Amplifier` module declares four ports (`inp`, `out`, `vcc`, `gnd`) that become pins when the module is instantiated. The `MainBoard` module creates two amplifier instances and wires them in cascade through a coupling resistor. Each `Amplifier` is a self-contained unit -- you can test, modify, or replace it independently.

**Design tips for hierarchical circuits:**

- Define `ports` with direction (`in`, `out`, `inout`) and side placement (`left.1`, `right.1`, `top.1`, `bottom.1`)
- Use meaningful port names that describe the signal, not the internal implementation
- Keep sub-modules focused on a single function for maximum reusability

---

## 9. Block Diagram -- System-Level Overview

A block diagram sketches an entire system at the subsystem level. Each node is a `block(shape: ..., label: ...)` instance, connections happen through bundle ports or `flow { }` edges. The `stereotype: block_diagram` hint switches the renderer to the block-lane defaults.

This pattern is the canonical starting point when a full circuit is still being decomposed -- see also the runnable sample at `examples/block_symbol_gallery.aelm`.

```aelm
bundle I2C {
    signals {
        sda: bidirectional
        scl: output
    }
    style { bundle_marker: slash }
}

module SensorHub {
    stereotype: block_diagram

    instances {
        MCU:    block(shape: rect,     label: \"MCU\") {
            ports {
                i2c_out: I2C out
            }
        }
        TEMP:   block(shape: sensor,   label: \"Temp Sensor\") {
            ports {
                i2c_in: I2C in
            }
        }
        CLOUD:  block(shape: cloud,    label: \"Cloud API\")
        RADIO:  block(shape: antenna,  label: \"LTE\") {
            ports {
                feed: passive @1
            }
        }
        STORE:  block(shape: database, label: \"History DB\")
    }

    connections {
        MCU.i2c_out == TEMP.i2c_in
    }
}
```

The `MCU` and `TEMP` blocks publish bundle ports, letting you keep the diagram abstract while still conveying that the two chips speak I2C. The `CLOUD`, `RADIO`, and `STORE` blocks remain pin-less placeholders -- they document intent without forcing every detail today.

---

## 10. Flow Chart -- Power-On Sequence

Flow charts model *behaviour*, not circuits. Each step is a `flow_node(shape: ..., label: ...)` node; edges live inside a dedicated `flow { }` block and accept labels such as `->{yes}` / `->{no}`.

This pattern matches `examples/flow-chart-power-on.aelm` in the repository.

```aelm
module PowerOnFlow {
    stereotype: flow_chart

    instances {
        START:    flow_node(shape: start,      label: \"Power On\")
        SELFTEST: flow_node(shape: process,    label: \"Self-Test\")
        OK:       flow_node(shape: decision,   label: \"Pass?\")
        LOAD:     flow_node(shape: subprocess, label: \"Load Firmware\")
        LOGERR:   flow_node(shape: document,   label: \"Log Error\")
        WAIT:     flow_node(shape: delay,      label: \"Wait 5s\")
        RUN:      flow_node(shape: io,         label: \"Run User App\")
        DONE:     flow_node(shape: end,        label: \"Done\")
    }

    flow {
        START -> SELFTEST -> OK
        OK ->{yes} LOAD -> RUN -> DONE
        OK ->{no}  LOGERR -> WAIT -> SELFTEST
    }
}
```

The `OK` decision branches with labelled arrows. `WAIT` loops back to `SELFTEST`, so the retry loop is explicit rather than hidden in pseudocode.

---

## 11. Mixed Hierarchy -- Circuit + Block + Flow

AELM lets you put real electrical parts, abstract blocks, and flow-chart nodes in the same module. The layout engine assigns each instance to its appropriate lane (electrical / block / flow). Source: `examples/mixed-hierarchy.aelm`.

```aelm
part Resistor {
    pins {
        a: passive @1
        b: passive @2
    }
    symbol: resistor
}

module MixedHierarchy {
    stereotype: block_diagram

    instances {
        // Classic circuit part
        R1: Resistor

        // Block-diagram abstract shapes
        MCU:  block(shape: rect,         label: \"MCU\")
        MEM:  block(shape: rounded_rect, label: \"Memory\")
        BUS:  block(shape: hexagon,      label: \"Bus\")

        // Flow-chart nodes
        BOOT: flow_node(shape: start,   label: \"Boot\")
        INIT: flow_node(shape: process, label: \"Init Peripherals\")
        IDLE: flow_node(shape: end,     label: \"Idle Loop\")
    }

    connections {
        R1.a -> R1.b          // electrical only
    }

    flow {
        BOOT -> INIT -> IDLE  // flow only
    }
}
```

Use this pattern when documenting firmware-level behaviour alongside the hardware that runs it, or when migrating a legacy block diagram into a real schematic one subsystem at a time.

---

## See Also

- [DSL Overview](DSL-Overview) -- Complete language reference
- [DSL Part Definition](DSL-Part-Definition) -- How to define custom parts
- [DSL Module Definition](DSL-Module-Definition) -- Module syntax and ports
- [DSL Connections](DSL-Connections) -- Connection syntax and net labels
- [DSL Block & Flow Diagrams](DSL-Block-Diagram) -- `block()` / `flow_node()` / `stereotype:`
- [DSL Port Bundles](DSL-Port-Bundle) -- `bundle { }` and the `==` operator
- [DSL Placement Hints](DSL-Placement-Hints) -- `place:` and `rot:` syntax
- [Stdlib Parts](Stdlib-Parts) -- Standard library components
- [Getting Started](Getting-Started) -- First steps with AELM
";

/// Common circuit patterns.
pub open spec fn circuit_patterns_text() -> Seq<char> {
    CIRCUIT_PATTERNS_1@ + CIRCUIT_PATTERNS_2@
}

/// Common circuit patterns.
pub fn circuit_patterns() -> (r: String)
    ensures
        r@ == circuit_patterns_text(),
{
    let mut r = owned(CIRCUIT_PATTERNS_1);
    push_str(&mut r, CIRCUIT_PATTERNS_2);
    r
}

/// The design-rule-check reference. Part 1 of 1.
pub const DRC_RULES_1: &'static str = "# DRC Rules

> :book: [日本語版はこちら](ja-DRC-Rules)

The Design Rule Check (DRC) system automatically validates circuit correctness in AELM. DRC runs on parse and on every save, providing immediate feedback through inline diagnostics in the VSCode editor. Rules are divided into **errors** (must fix) and **warnings** (advisory).

## Overview

DRC analyzes the netlist produced by the parser and checks for electrical violations, naming conflicts, and missing configurations. Each rule has a unique code (e.g., `DRC-E001`) that appears in the diagnostics panel, making it easy to look up the cause and resolution.

- **Error rules (E-codes)** block the circuit from being considered valid. They must be resolved before rendering or export.
- **Warning rules (W-codes)** flag potential issues that may be intentional. They do not block rendering but should be reviewed.

## Error Rules (E-codes)

Error rules indicate definite problems that must be fixed.

| Code | Severity | Description | Trigger |
|------|----------|-------------|---------|
| DRC-E001 | Warning | Unconnected pin | Pin not connected and not suppressed with `nc:` |
| DRC-E002 | Error | Supply pin not connected to any supply net | Supply pin (power or ground type) not connected to any power or ground net |
| DRC-E004 | Error | Output-to-output conflict | Two output pins connected to the same net |
| DRC-E005 | Error | Undriven input | Input pin not driven by any output |
| DRC-E006 | Error | Open collector without pull-up | Open collector pin has no pull-up resistor |
| DRC-E007 | Error | Duplicate instance name | Same instance name used twice in a module |

## Warning Rules (W-codes)

Warning rules flag conditions that may be intentional but deserve review.

| Code | Severity | Description | Trigger |
|------|----------|-------------|---------|
| DRC-W001 | Warning | Floating bidirectional pin | Bidirectional pin connected but not driven |
| DRC-W002 | Warning | Supply net has no supply source | Supply net (power or ground typed) declared but no supply-type pin connected |
| DRC-W003 | Warning | Open collector advisory | Open collector without explicit pull-up configuration |
| DRC-W004 | Warning | NoConnect pin has connections | Pin marked `no_connect` but has wires |
| DRC-W005 | Warning | Case-similar labels | Labels differ only in case (e.g., `vcc` vs `VCC`) |
| DRC-W006 | Warning | Missing parameter value | Required parameter has no value and no default |

## DRC Suppression

Specific DRC rules can be suppressed on a per-instance basis using a `drc-ignore` comment. Place the comment immediately before the instance or connection that triggers the diagnostic:

```
// Suppress specific rules on this instance:
// drc-ignore: DRC-E001, DRC-W005
```

**Important**: Suppression is per-instance, not global. Each suppression comment applies only to the next statement. This ensures that violations are intentionally acknowledged rather than silently hidden across the entire design.

## DRC Configuration

DRC behavior is configured in the `.aproj` project file. Each rule category can be enabled or disabled independently:

```
drc {
    check_unconnected: true    // DRC-E001
    check_power: true          // DRC-E002, W002
    check_type_mismatch: true  // DRC-E004, E005, E006
    check_naming: true         // DRC-E007, DRC-W005
    check_params: true         // DRC-W006
}
```

All checks are enabled by default. Disabling a category suppresses all rules within that category.

## Examples

### DRC-E001: Unconnected Pin

**Violation** -- Pin `p2` of `R1` is not connected and not suppressed:

```
// BAD: pin p2 is unconnected
module Bad {
    instances {
        R1: Resistor(value: 10k)
    }
    connections {
        // Only p1 is connected, p2 floats
    }
}
```

**Fix (option 1)** -- Connect the pin:

```
// GOOD: all pins connected
module Good {
    instances {
        R1: Resistor(value: 10k)
        R2: Resistor(value: 4.7k)
    }
    connections {
        R1.p2 -> R2.p1
    }
}
```

**Fix (option 2)** -- Suppress with the `nc:` hint when a pin is intentionally left unconnected:

```
// GOOD: nc: suppresses DRC-E001 for specific pins
module Good {
    instances {
        U1: MCU nc: [gpio5, gpio6]   // these two pins intentionally unused
        ANT1: Antenna nc: all        // all pins suppressed (e.g. pure mechanical part)
    }
    connections {
        // U1.gpio5 and U1.gpio6 do not need to be wired
    }
}
```

`nc: all` suppresses the warning for every pin on the instance. `nc: [pin1, pin2]` targets individual pins by name. The LSP provides pin-name completions inside the brackets.

### DRC-E004: Output-to-Output Conflict

**Violation** -- Two output pins are shorted together on the same net:

```
// BAD: two outputs on same net
module Bad {
    instances {
        U1: Buffer
        U2: Buffer
    }
    connections {
        U1.out -> U2.out   // Two outputs shorted!
    }
}
```

**Fix** -- Route outputs to separate nets, or use a multiplexer:

```
// GOOD: outputs on separate nets
module Good {
    instances {
        U1: Buffer
        U2: Buffer
        MUX1: Mux2to1
    }
    connections {
        U1.out -> MUX1.a
        U2.out -> MUX1.b
    }
}
```

### DRC-E005: Undriven Input

**Violation** -- An input pin has no driving output:

```
// BAD: input not driven
module Bad {
    instances {
        U1: Buffer
    }
    connections {
        // U1.in has no driver
        U1.out -> net_out
    }
}
```

**Fix** -- Connect the input to a driving source:

```
// GOOD: input driven by module port
module Good {
    ports {
        sig_in: input
    }
    instances {
        U1: Buffer
    }
    connections {
        sig_in -> U1.in
        U1.out -> net_out
    }
}
```

### DRC-E006: Open Collector Without Pull-Up

**Violation** -- An open collector output has no pull-up resistor on the net:

```
// BAD: open collector without pull-up
module Bad {
    instances {
        U1: Comparator  // output is open collector
    }
    connections {
        U1.out -> net_signal
    }
}
```

**Fix** -- Add a pull-up resistor to the net:

```
// GOOD: pull-up resistor on open collector output
module Good {
    instances {
        U1: Comparator
        R_PU: Resistor(value: 10k)
    }
    connections {
        U1.out -> R_PU.p1
        R_PU.p2 -> VCC
    }
}
```

## Electrical Type Compatibility

The following table shows which pin types can legally connect to each other. A check mark indicates a valid connection; an X indicates a DRC violation.

| | Input | Output | Bidirectional | Passive | Power | Ground | Open Collector | Open Emitter |
|---|:---:|:---:|:---:|:---:|:---:|:---:|:---:|:---:|
| **Input** | -- | OK | OK | OK | -- | -- | OK | OK |
| **Output** | OK | X (E004) | OK | OK | -- | -- | X (E004) | X (E004) |
| **Bidirectional** | OK | OK | OK | OK | -- | -- | OK | OK |
| **Passive** | OK | OK | OK | OK | OK | OK | OK | OK |
| **Power** | -- | -- | -- | OK | OK | OK | -- | -- |
| **Ground** | -- | -- | -- | OK | OK | OK | -- | -- |
| **Open Collector** | OK | X (E004) | OK | OK | -- | -- | OK | -- |
| **Open Emitter** | OK | X (E004) | OK | OK | -- | -- | -- | OK |

- `OK` = valid connection
- `X (code)` = DRC error with the indicated code
- `--` = not applicable or requires explicit net type

> **Power and Ground are both supply types.** A `power`-typed pin may connect to a `ground`-typed net and vice versa without triggering DRC-E002. The `power` vs `ground` distinction is retained only for rendering (glyph selection and bus-rail placement). See [Supply Pin Model](#supply-pin-model) below.

## Supply Pin Model

Pins declared with `power` or `ground` type in a `.alib` part definition are collectively called **supply pins**. At the DRC level, both types are treated identically:

- A supply pin is valid if it connects to **any** supply net, regardless of polarity (`power`-typed or `ground`-typed net both count).
- Example: an op-amp `vcc: power @4` pin connected to a `GND` labeled net does not trigger DRC-E002. Both `VCC` and `GND` are supply nets.
- The `power` vs `ground` distinction is retained in the IR solely for **rendering**: `power` pins draw with the VCC-flag glyph and place on the top bus rail; `ground` pins draw with the GND-flag glyph and place on the bottom rail.
- DRC-E002 fires only when a supply pin has **no connection** to any supply net at all.

This design allows flexible supply schemes (e.g., split-rail op-amps where V− connects to GND) without forcing artificial polarity constraints in the DRC.

---

## See Also

- [DSL Connections](DSL-Connections) -- Connection syntax reference
- [DSL Module Definition](DSL-Module-Definition) -- Module structure including ports and instances
- [DSL Part Definition](DSL-Part-Definition) -- Part definitions including pin types
";

/// The design-rule-check reference.
pub open spec fn drc_rules_text() -> Seq<char> {
    DRC_RULES_1@
}

/// The design-rule-check reference.
pub fn drc_rules() -> (r: String)
    ensures
        r@ == drc_rules_text(),
{
    let mut r = owned(DRC_RULES_1);
    r
}

/// Common mistakes and their fixes. Part 1 of 1.
pub const COMMON_MISTAKES_1: &'static str = "# Common Mistakes

> :book: [日本語版はこちら](ja-Common-Mistakes)

This guide covers the most frequent mistakes when writing AELM circuits and how to fix them. Each section includes the relevant DRC code, a bad example, and the corrected version.

## 1. Missing Power and Ground Connections

**Problem**: DRC-E002 / DRC-E003 -- Power and ground pins are not connected to power/ground nets. This is the most common mistake for beginners: placing active components without wiring their supply pins.

```
// BAD: Missing power connections
module Bad {
    instances {
        U1: OpAmp
    }
    connections {
        // No VCC/GND connected to U1.vcc and U1.vee!
    }
}

// GOOD: Power connected
module Good {
    instances {
        U1: OpAmp
        PWR: VCC
        GND1: GND
    }
    connections {
        PWR.pin -> U1.vcc
        U1.vee -> GND1.pin
    }
}
```

**Tip**: Always add VCC and GND instances first, then wire them to every power/ground pin before connecting signals.

## 2. Pin Name Mismatch

**Problem**: Using the wrong pin names causes parse errors or unconnected-pin DRC violations. The stdlib `Resistor` uses `p1` / `p2`, but a custom part definition might use `a` / `b`.

```
// BAD: Wrong pin name for stdlib Resistor
connections {
    U1.out -> R1.a       // Resistor has no pin named 'a'
}

// GOOD: Correct stdlib pin names
connections {
    U1.out -> R1.p1      // Resistor uses p1 and p2
}
```

**Fix**: Check the part definition in stdlib or your `.alib` file. In the VSCode editor, hover over an instance name to see its pin list via LSP.

## 3. Placement Hints Inside Parentheses

**Problem**: `rot:` and `place:` are instance-level hints, NOT parameters inside `()`. Putting them inside parentheses causes a parse error.

```
// BAD: rot inside params
R1: Resistor(value: 10k, rot: 90)

// GOOD: rot is a hint outside ()
R1: Resistor(value: 10k) rot: 90
```

**Rule**: Everything inside `()` is a parameter passed to the part. Everything after `()` is a layout hint for the instance.

## 4. Forgetting Pin Electrical Types

**Problem**: Declaring a pin with the wrong electrical type leads to DRC false positives or missed violations. For example, using `passive` for a power pin means DRC will not check power connectivity.

```
// BAD: Power pin declared as passive
part BadPower {
    pins {
        vcc: passive       // DRC won't enforce power net connection
    }
}

// GOOD: Correct electrical types
part GoodPower {
    pins {
        vcc: power         // DRC-E002 will fire if not on power net
        gnd: ground        // DRC-E003 will fire if not on ground net
        sig_in: input      // DRC-E005 will fire if undriven
        sig_out: output    // DRC-E004 will fire if shorted
    }
}
```

**Fix**: Use the correct type: `power` for VCC pins, `ground` for GND pins, `input` / `output` for signal pins, `passive` only for truly passive elements (resistor leads, etc.).

## 5. Floating Connections (Unconnected Pins)

**Problem**: DRC-E001 -- Pins that are not connected and not marked `no_connect`. This is especially common with multi-pin ICs where not all pins are used in the design.

```
// BAD: Unused pins left floating
module Bad {
    instances {
        U1: QuadNand   // 14-pin IC, only 3 gates used
    }
    connections {
        // Gate D pins (U1.d_in1, U1.d_in2, U1.d_out) not connected
    }
}

// GOOD: Unused pins explicitly marked
module Good {
    instances {
        U1: QuadNand
    }
    connections {
        // ... active gate connections ...
        // drc-ignore: DRC-E001
        // Mark unused gate pins as no_connect
    }
}
```

**Fix**: Either connect unused pins to appropriate nets or use a `drc-ignore` comment to acknowledge the floating pins intentionally.

## 6. Output-to-Output Short

**Problem**: DRC-E004 -- Two output pins connected to the same net. This creates an electrical conflict that can damage real hardware.

```
// BAD: Two outputs shorted
module Bad {
    instances {
        U1: Buffer
        U2: Buffer
    }
    connections {
        U1.out -> U2.out   // Two outputs on same net!
    }
}

// GOOD: Use tristate or separate nets
module Good {
    instances {
        U1: TriBuffer
        U2: TriBuffer
        MUX1: Mux2to1
    }
    connections {
        U1.out -> MUX1.a
        U2.out -> MUX1.b
    }
}
```

**Fix**: Use tristate or open_collector output types if multiple drivers are needed, or route outputs through a multiplexer.

## 7. Incorrect Rotation Direction

**Problem**: Component rotated the wrong way because the rotation direction is misunderstood.

```
// Rotation is counter-clockwise (CCW) from default orientation
R1: Resistor(value: 10k) rot: 90    // 90 degrees CCW
R2: Resistor(value: 10k) rot: 270   // 270 degrees CCW (= 90 CW)
```

**Key point**: `rot: 90` means 90 degrees counter-clockwise. If you want a clockwise rotation, use `rot: 270` (which is 90 degrees CW). Use the `R` key in the editor to preview rotation interactively before committing to a value.

## 8. Module Port Missing Side/Slot

**Problem**: Module ports declared without `side.slot` placement information lead to unpredictable pin positions when the module is used as an instance in another module.

```
// BAD: No placement info
ports {
    inp: passive in
    outp: passive out
}

// GOOD: Explicit placement
ports {
    inp: passive in left.1
    outp: passive out right.1
}
```

**Fix**: Always specify `side.slot` for module ports. Available sides are `left`, `right`, `top`, `bottom`. Slots are numbered starting from 1.

## 9. Case Sensitivity Issues

**Problem**: DRC-W005 -- Labels that differ only in letter case. AELM is case-sensitive, so `vcc` and `VCC` are different identifiers. This can cause subtle connection bugs.

```
// BAD: Inconsistent casing
module Bad {
    instances {
        vcc: VCC           // Instance named 'vcc' (lowercase)
    }
    connections {
        VCC.pin -> U1.vcc  // Refers to 'VCC' (uppercase) -- not the same!
    }
}

// GOOD: Consistent naming convention
module Good {
    instances {
        VCC1: VCC          // UPPER_SNAKE for instances
        GND1: GND
    }
    connections {
        VCC1.pin -> U1.vcc
        U1.vee -> GND1.pin
    }
}
```

**Convention**: Use PascalCase for part/module type names, UPPER_SNAKE_CASE for instance names, and snake_case or UPPER for pin names.

## See Also

- [DRC Rules](DRC-Rules) -- Full DRC rule reference and electrical type compatibility
- [DSL Overview](DSL-Overview) -- AELM DSL language overview
- [DSL Part Definition](DSL-Part-Definition) -- How to define parts and pin types
- [DSL Module Definition](DSL-Module-Definition) -- Module structure including ports and instances
- [DSL Placement Hints](DSL-Placement-Hints) -- Rotation, placement, and layout hints
- [DSL Connections](DSL-Connections) -- Connection syntax reference
- [Stdlib Parts](Stdlib-Parts) -- Standard library part list and pin names
";

/// Common mistakes and their fixes.
pub open spec fn common_mistakes_text() -> Seq<char> {
    COMMON_MISTAKES_1@
}

/// Common mistakes and their fixes.
pub fn common_mistakes() -> (r: String)
    ensures
        r@ == common_mistakes_text(),
{
    let mut r = owned(COMMON_MISTAKES_1);
    r
}

} // verus!
