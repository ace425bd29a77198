# zephyr

The Rust interface to the Zephyr kernel, verified with Verus.

The library in `src/` never talks to the kernel. An operation says which calls to make, as
`raw::Call` values with their exact arguments, and a second function, whose name ends in `_done`,
takes the kernel's answer and yields the result. Operations that go back and forth between the
kernel and decisions of their own are state machines that are advanced by one answer at a time. So
everything that is decided on the way has a contract: what is asked of the kernel, in which order,
and what each answer comes to.

What holds across operations is proved by functions whose names start with `law_`: that a kernel
object is initialised once and never moves, that an operation on the blocking pool runs at most
once, that a channel keeps the order of its messages and its capacity, that a serial port sends
every byte of a write once, that nothing of a printed text is lost, and so on.

- `src/` is the library. What it takes on trust of other crates (`arraydeque`, `arrayvec`,
  `heapless`, `bt-hci`) and of `core::str::from_utf8` is stated in `device/uart/ring.rs`,
  `work/events.rs`, `device/text.rs` and `bluetooth/hci_raw.rs`.
- `tests/` runs the library on concrete values.
- `app/` owns the memory of kernel objects, makes the calls, and gives the result the shape of
  ordinary Rust: guards, futures, and the traits of `log`, `critical-section`, `embassy` and
  `bt-hci`.
- `extras/shims.c` holds the C functions that `app/` calls beside the kernel's own.
