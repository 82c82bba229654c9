# xhype

VM-exit handling for a hypervisor that runs x86 guests on Intel VT-x, verified
with Verus.

When a guest leaves its virtual CPU, a handler of `vmexit` decides what the exit
does:

| handler                | exit                                                  |
|------------------------|-------------------------------------------------------|
| `handle_cr`            | control register access                               |
| `handle_msr_access`    | `rdmsr`, `wrmsr`                                      |
| `handle_io`            | I/O instruction (serial port, PCI configuration space) |
| `handle_ept_violation` | EPT violation                                         |
| `handle_cpuid`         | `cpuid`                                               |

A handler works on `vcpu::VCPU`, which holds what each register and VMCS field
reads as, what the hypervisor refuses, and the stores made so far, and on
`guest::GuestThread`, which holds the state of the thread and the guest's side
of its devices. The contract of a handler names its *script*: the accesses to
the virtual CPU that it makes, in order. The script runs up to the first access
that is refused, whose code is then the error.

`app/` connects the handlers to a hypervisor and to devices, and logs.
