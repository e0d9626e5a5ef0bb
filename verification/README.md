# cpu_hotplug

ACPI CPU hotplug for a virtual machine monitor: the controller device whose registers the guest
reads and writes, the AML that describes it and the vCPUs to the guest, and the event device that
tells the guest of a change. Every function of the library but those of `src/aml/objects.rs` is
verified with Verus against its contract.

| Place | What it holds |
|-------|---------------|
| `src/controller.rs` | the controller: hotplug, unplug, ejection, snapshots, the register window |
| `src/aml/` | which bytes an AML object is, and how objects are made with `acpi_tables` |
| `src/cpu_aml.rs` | the AML of the controller and of the vCPUs |
| `src/guest.rs` | what the guest does when it runs the AML methods of the vCPUs |
| `src/manager.rs` | the ACPI devices of a machine and the generic event device |
| `src/config.rs`, `src/request.rs` | values and requests of the hotplug API |
| `src/laws.rs` | properties of several operations together |
| `tests/` | tests with the real `acpi_tables` and event descriptors |
| `app/` | the host's side: JSON, event descriptors, interrupts, the bus |

What is taken on trust is in two places. The functions of `src/aml/objects.rs` call `acpi_tables`,
and their contracts, which state the bytes it makes of plain values, are believed.
`src/controller.rs` declares the event descriptor of `vmm-sys-util`, which the controller only
carries.
