# pyo3_asyncio

A verified bridge between Rust's async/await and Python's asyncio event loop.

The library in `src/` is written in [Verus](https://github.com/verus-lang/verus). It talks to
Python through a `Session`: a GIL guard with a ghost history of everything that was asked of the
interpreter and everything that came back. Each function's contract says which events it adds to
the history, in which order, and how its result follows from the replies. A closure of the
caller's comes in a `Handoff`, which only a session opens: its call is one of the events.

- `python`: sessions, their histories, and the calls into pyo3 and the one-shot channel;
- `plan`: sequences of requests in which each one may depend on the answers so far;
- `globals`: the handles that an initialization leaves behind;
- `event_loop`: starting, running and closing the event loop;
- `task`: awaiting a Python coroutine from Rust;
- `generic`: awaiting a Rust future from Python, on any Rust runtime;
- `laws`: what holds of the library as a whole.

`app/` puts the library into a process: it holds the state that all threads share, the Python
class of the callbacks and the futures, and it prints what nobody is left to handle. `tests/`
runs the library against a real interpreter.
