# doom-fish-utils

Building blocks for the Rust side of callback-based foreign interfaces, written
in Verus: what each function does is stated in its contract and proved.

| Module | What it holds |
|--------|---------------|
| `stream`, `stream_laws` | Bounded streams from callbacks to polling consumers: lossy or waiting pushes, wakers of any number of waiting consumers, signals to waiting producers. |
| `spsc`, `spsc_laws` | Bounded rings between one producer and one consumer, and the steps of a poll while the other half acts in between. |
| `completion` | One-shot results of operations, for waiting threads and polling tasks. |
| `callback_context` | The life of a callback's context: its references, its flag, its value. |
| `panic_safe` | What a boundary that panics must not cross does next. |
| `four_char_code` | Codes of four characters held as a number. |
| `ring_queue`, `waker` | What the proofs take as given of `crossbeam_queue`, `futures_util` and `std::task::Waker`. |

The library is sequential: each function is one critical section, or one step,
on state that it has to itself, and what is to happen outside of it (a waker to
wake, a value to drop, a thread to notify) is part of its result. The modules
under `app/` share that state between threads, behind locks, raw pointers and
the traits of executors.

Public proof functions whose names begin with `law_` state what holds over more
than one call.
